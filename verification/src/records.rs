//! The records of a test's expected output, and what a run of the test makes of them.

use vstd::prelude::*;
use crate::trusted::{is_utf8, utf8_decodes};

verus! {

/// How many places, up to the end of the shorter one, hold the same byte in both
/// sequences, from place `i` on.
pub open spec fn matching_from(a: Seq<u8>, b: Seq<u8>, i: nat) -> nat
    decreases a.len() - i,
{
    if i >= a.len() || i >= b.len() {
        0
    } else {
        matching_from(a, b, i + 1) + if a[i as int] == b[i as int] {
            1nat
        } else {
            0nat
        }
    }
}

/// Whether the output matches the record: as many places agree as either has bytes.
pub open spec fn output_matches(record: Seq<u8>, found: Seq<u8>) -> bool {
    matching_from(record, found, 0) == record.len() && matching_from(record, found, 0)
        == found.len()
}

proof fn lemma_matching_bounds(a: Seq<u8>, b: Seq<u8>, i: nat)
    requires
        i <= a.len(),
        i <= b.len(),
    ensures
        matching_from(a, b, i) <= a.len() - i,
        matching_from(a, b, i) <= b.len() - i,
        matching_from(a, b, i) == a.len() - i && a.len() == b.len() ==> a.subrange(i as int, a.len() as int)
            == b.subrange(i as int, b.len() as int),
        a.len() == b.len() && a.subrange(i as int, a.len() as int) == b.subrange(i as int, b.len() as int)
            ==> matching_from(a, b, i) == a.len() - i,
    decreases a.len() - i,
{
    if i < a.len() && i < b.len() {
        lemma_matching_bounds(a, b, i + 1);
        if a.len() == b.len() {
            if matching_from(a, b, i) == a.len() - i {
                assert(a.subrange(i as int, a.len() as int) =~= b.subrange(i as int, b.len() as int)) by {
                    assert forall|j: int| 0 <= j < a.len() - i implies a.subrange(i as int, a.len() as int)[j]
                        == b.subrange(i as int, b.len() as int)[j] by {
                        if j > 0 {
                            assert(a.subrange(i as int, a.len() as int)[j] == a.subrange((i + 1) as int, a.len() as int)[j
                                - 1]);
                            assert(b.subrange(i as int, b.len() as int)[j] == b.subrange((i + 1) as int, b.len() as int)[j
                                - 1]);
                        }
                    }
                }
            }
            if a.subrange(i as int, a.len() as int) == b.subrange(i as int, b.len() as int) {
                assert(a[i as int] == a.subrange(i as int, a.len() as int)[0]);
                assert(b[i as int] == b.subrange(i as int, b.len() as int)[0]);
                assert(a.subrange((i + 1) as int, a.len() as int) =~= a.subrange(i as int, a.len() as int).drop_first());
                assert(b.subrange((i + 1) as int, b.len() as int) =~= b.subrange(i as int, b.len() as int).drop_first());
            }
        }
    }
}

/// An output matches its record exactly when the two are the same bytes.
pub proof fn lemma_output_matches_iff_equal(record: Seq<u8>, found: Seq<u8>)
    ensures
        output_matches(record, found) <==> record == found,
{
    lemma_matching_bounds(record, found, 0);
    assert(record.subrange(0, record.len() as int) =~= record);
    assert(found.subrange(0, found.len() as int) =~= found);
}

/// Whether the output matches the record.
pub fn output_matches_exec(record: &Vec<u8>, found: &Vec<u8>) -> (r: bool)
    ensures
        r == output_matches(record@, found@),
{
    let n = if record.len() < found.len() {
        record.len()
    } else {
        found.len()
    };
    let mut count: usize = 0;
    let mut i: usize = n;
    while i > 0
        invariant
            n <= record@.len(),
            n <= found@.len(),
            n == record@.len() || n == found@.len(),
            i <= n,
            count == matching_from(record@, found@, i as nat),
            count <= n - i,
        decreases i,
    {
        i = i - 1;
        if record[i] == found[i] {
            count = count + 1;
        }
    }
    count == record.len() && count == found.len()
}

/// What a test's record file held.
pub enum RecordFile {
    /// There is no record.
    Absent,
    /// The record could not be read as text.
    Unreadable,
    /// The record's bytes.
    Text(Vec<u8>),
}

/// What a run of a test does about one of its streams.
pub enum RecordStep {
    /// Nothing: the stream matched its record, or it has none.
    Keep,
    /// Write the output as the new record.
    Rewrite,
    /// End the test with this error.
    Fail(String),
}

/// The name of a stream in messages.
pub open spec fn stream_name(stdout: bool) -> Seq<char> {
    if stdout {
        "stdout"@
    } else {
        "stderr"@
    }
}

/// The name of a stream in messages, with a capital.
pub open spec fn stream_title(stdout: bool) -> Seq<char> {
    if stdout {
        "Stdout"@
    } else {
        "Stderr"@
    }
}

/// What a run of a test does about its standard output (`stdout`) or error stream,
/// given the record found and the output: a stream with no record, or that matches it,
/// is kept; otherwise a recording run writes the new record, and any other run fails on
/// the mismatch (or on output that is not text).
pub fn record_step(stdout: bool, record: &RecordFile, found: &Vec<u8>, recording: bool) -> (r: RecordStep)
    ensures
        match record {
            RecordFile::Absent => r is Keep,
            RecordFile::Unreadable => r matches RecordStep::Fail(e) && e@ == "Failed reading "@ + stream_name(
                stdout,
            ) + " record"@,
            RecordFile::Text(rec) => if output_matches(rec@, found@) {
                r is Keep
            } else if recording {
                r is Rewrite
            } else if utf8_decodes(found@) {
                r matches RecordStep::Fail(e) && e@ == stream_title(stdout) + " mismatch"@
            } else {
                r matches RecordStep::Fail(e) && e@ == "Failed parsing output."@ + stream_name(stdout)
            },
        },
{
    proof {
        reveal_strlit("stdout");
        reveal_strlit("stderr");
        reveal_strlit("Stdout");
        reveal_strlit("Stderr");
    }
    let name = if stdout {
        "stdout"
    } else {
        "stderr"
    };
    let title = if stdout {
        "Stdout"
    } else {
        "Stderr"
    };
    match record {
        RecordFile::Absent => RecordStep::Keep,
        RecordFile::Unreadable => {
            let mut e = String::from_str("Failed reading ");
            e.append(name);
            e.append(" record");
            RecordStep::Fail(e)
        },
        RecordFile::Text(rec) => {
            if output_matches_exec(rec, found) {
                RecordStep::Keep
            } else if recording {
                RecordStep::Rewrite
            } else if is_utf8(found) {
                let mut e = String::from_str(title);
                e.append(" mismatch");
                RecordStep::Fail(e)
            } else {
                let mut e = String::from_str("Failed parsing output.");
                e.append(name);
                RecordStep::Fail(e)
            }
        },
    }
}

/// The error of a test whose new record could not be written.
pub fn record_write_error(stdout: bool) -> (r: String)
    ensures
        r@ == "Failed recording "@ + stream_name(stdout),
{
    proof {
        reveal_strlit("stdout");
        reveal_strlit("stderr");
    }
    let mut e = String::from_str("Failed recording ");
    if stdout {
        e.append("stdout");
    } else {
        e.append("stderr");
    }
    e
}

} // verus!
