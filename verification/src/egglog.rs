//! Reading what the relational engine says of a run: a list of messages, of
//! which those that begin with `Function ` report the size of a table and
//! those that begin with `Ran ` report on the run.
use crate::text::{numeral, parse_size, starts_with};
use vstd::prelude::*;
use vstd::string::*;

verus! {

/// Where the rules of a rewrite system are kept for the relational engine.
pub fn path(name: &str) -> (r: String)
    ensures
        r@ == "src/egglog/"@ + name@ + ".egg"@,
{
    String::from_str("src/egglog/").concat(name).concat(".egg")
}

/// The pattern that finds the size in a message.
pub const SIZE_PATTERN: &'static str = "has size ([0-9]+)";

/// What `regex` captures: the text of the first group of the leftmost match
/// of `pattern` in `haystack`; none where the pattern is no regular
/// expression, where it matches nowhere, and where the group took no part in
/// the match.
pub uninterp spec fn first_group(pattern: Seq<char>, haystack: Seq<char>) -> Option<Seq<char>>;

/// `regex::Regex::new`, `Regex::captures` and `Captures::get` for the first
/// group, in that order: the text that the group captured in the leftmost
/// match.
#[verifier::external_body]
fn capture(pattern: &str, haystack: &str) -> (r: Option<String>)
    ensures
        r is Some == first_group(pattern@, haystack@) is Some,
        r matches Some(s) ==> first_group(pattern@, haystack@) == Some(s@),
{
    let compiled = regex::Regex::new(pattern).ok()?;
    let found = compiled.captures(haystack)?;
    Some(found.get(1)?.as_str().to_string())
}

/// The size that a message reports: the number behind `has size`.
pub open spec fn size_in(msg: Seq<char>) -> Option<nat> {
    match first_group(SIZE_PATTERN@, msg) {
        Some(digits) => numeral(digits),
        None => None,
    }
}

/// The message reports the size of a table.
pub open spec fn is_table(msg: Seq<char>) -> bool {
    "Function "@.is_prefix_of(msg)
}

/// The message reports on the run.
pub open spec fn is_report(msg: Seq<char>) -> bool {
    "Ran "@.is_prefix_of(msg)
}

/// Every message that reports on a table says its size.
pub open spec fn sizes_known(msgs: Seq<String>) -> bool {
    forall|i: int| 0 <= i < msgs.len() && is_table(#[trigger] msgs[i]@) ==> size_in(msgs[i]@) is Some
}

/// The sizes of all the tables that the messages from `from` on report,
/// added up.
pub open spec fn total_size(msgs: Seq<String>, from: int) -> nat
    decreases msgs.len() - from,
{
    if from < 0 || from >= msgs.len() {
        0
    } else {
        total_size(msgs, from + 1) + (if is_table(msgs[from]@) && size_in(msgs[from]@) is Some {
            size_in(msgs[from]@)->0
        } else {
            0
        })
    }
}

/// The index of the last message that reports on the run.
pub open spec fn last_report(msgs: Seq<String>) -> Option<int> {
    if exists|i: int| 0 <= i < msgs.len() && is_report(#[trigger] msgs[i]@) {
        Some(
            choose|i: int|
                0 <= i < msgs.len() && is_report(#[trigger] msgs[i]@) && forall|j: int|
                    i < j < msgs.len() ==> !is_report(#[trigger] msgs[j]@),
        )
    } else {
        None
    }
}

/// What the messages of a run come to.
#[derive(Clone, Copy, Debug, PartialEq, Eq, Structural)]
pub struct Summary {
    /// The index of the last message that reports on the run, if any does.
    pub report: Option<usize>,
    /// The sizes of all the tables, added up.
    pub db_size: usize,
}

/// The size to add for one message, given what was captured in it: the
/// number captured, for a message that reports on a table; nothing for any
/// other message. There is no answer for a table without a size, nor for a
/// size beyond the machine's numbers.
pub fn table_size(msg: &str, captured: Option<String>) -> (r: Option<usize>)
    ensures
        r == if !is_table(msg@) {
            Some(0usize)
        } else {
            match captured {
                Some(digits) => match numeral(digits@) {
                    Some(n) => if n <= usize::MAX {
                        Some(n as usize)
                    } else {
                        None
                    },
                    None => None,
                },
                None => None,
            }
        },
{
    if !starts_with(msg, "Function ") {
        return Some(0);
    }
    match captured {
        Some(digits) => parse_size(digits.as_str()),
        None => None,
    }
}

/// Reads the messages of a run: finds the last report on the run, and adds
/// up the sizes of the tables. There is no summary where a message on a
/// table says no size, nor where the sizes add up beyond the machine's
/// numbers.
pub fn run_egglog_with_engine(msgs: &Vec<String>) -> (r: Option<Summary>)
    ensures
        r is Some == (sizes_known(msgs@) && total_size(msgs@, 0) <= usize::MAX),
        r matches Some(s) ==> s.db_size == total_size(msgs@, 0) && (match s.report {
            Some(i) => last_report(msgs@) == Some(i as int),
            None => last_report(msgs@) is None,
        }),
{
    let mut report: Option<usize> = None;
    let mut db_size: usize = 0;
    let mut i: usize = msgs.len();
    while i > 0
        invariant
            i <= msgs.len(),
            db_size == total_size(msgs@, i as int),
            forall|j: int| i <= j < msgs.len() && is_table(#[trigger] msgs@[j]@) ==> size_in(msgs@[j]@) is Some,
            match report {
                Some(k) => i <= k < msgs.len() && is_report(msgs@[k as int]@) && forall|j: int|
                    k < j < msgs.len() ==> !is_report(#[trigger] msgs@[j]@),
                None => forall|j: int| i <= j < msgs.len() ==> !is_report(#[trigger] msgs@[j]@),
            },
        decreases i,
    {
        i -= 1;
        let msg = msgs[i].as_str();
        if starts_with(msg, "Ran ") {
            if report.is_none() {
                report = Some(i);
            }
        }
        let captured = if starts_with(msg, "Function ") {
            capture(SIZE_PATTERN, msg)
        } else {
            None
        };
        let size = table_size(msg, captured);
        proof {
            lemma_total_monotonic(msgs@, 0, i as int);
        }
        match size {
            Some(n) => {
                if n > usize::MAX - db_size {
                    return None;
                }
                db_size += n;
            },
            None => {
                assert(is_table(msgs@[i as int]@));
                let ghost n = size_in(msgs@[i as int]@);
                assert(n is Some ==> n->0 > usize::MAX);
                return None;
            },
        }
    }
    proof {
        match report {
            Some(k) => {
                assert(is_report(msgs@[k as int]@));
                let l = last_report(msgs@)->0;
                assert(l == k) by {
                    if l < k {
                        assert(!is_report(msgs@[k as int]@));
                    } else if l > k {
                        assert(!is_report(msgs@[l]@));
                    }
                }
            },
            None => {},
        }
    }
    Some(Summary { report, db_size })
}

/// The sizes from an earlier message on add up to no less than those from
/// a later one on.
proof fn lemma_total_monotonic(msgs: Seq<String>, a: int, b: int)
    requires
        0 <= a <= b <= msgs.len(),
    ensures
        total_size(msgs, a) >= total_size(msgs, b),
    decreases b - a,
{
    if a < b {
        lemma_total_monotonic(msgs, a + 1, b);
    }
}

} // verus!
