use vstd::prelude::*;
use vstd::string::StrSliceExecFns;

verus! {

/// One row of an operating-system process table snapshot.
#[derive(Clone, Debug)]
pub struct ProcessEntry {
    pub pid: u32,
    pub name: String,
    pub start_time: u64,
}

/// A process that matched the backend's identity: its identifier and start time.
#[derive(Clone, Copy, Debug, PartialEq, Eq, Structural)]
pub struct ProcessDescriptor {
    pub pid: u32,
    pub start_time: u64,
}

/// How the platform compares process names.
#[derive(Clone, Copy, Debug, PartialEq, Eq, Structural)]
pub enum NameComparison {
    /// Character for character.
    Exact,
    /// Character for character, except that ASCII letters match regardless
    /// of case.
    IgnoreAsciiCase,
}

pub open spec fn is_ascii_upper(c: char) -> bool {
    'A' <= c && c <= 'Z'
}

/// Two characters that are equal, or the same ASCII letter in either case.
pub open spec fn same_letter(a: char, b: char) -> bool {
    a == b || (is_ascii_upper(a) && a as u32 + 32 == b as u32) || (is_ascii_upper(b) && b as u32
        + 32 == a as u32)
}

/// Whether a reported process name matches the expected one.
pub open spec fn names_match(cmp: NameComparison, reported: Seq<char>, expected: Seq<char>) -> bool {
    match cmp {
        NameComparison::Exact => reported == expected,
        NameComparison::IgnoreAsciiCase => reported.len() == expected.len() && forall|i: int|
            0 <= i < reported.len() ==> #[trigger] same_letter(reported[i], expected[i]),
    }
}

/// The descriptor of a snapshot row.
pub open spec fn describe(e: ProcessEntry) -> ProcessDescriptor {
    ProcessDescriptor { pid: e.pid, start_time: e.start_time }
}

/// The descriptors, in snapshot order, of the rows whose reported name
/// matches `name`.
pub open spec fn matching(cmp: NameComparison, name: Seq<char>, rows: Seq<ProcessEntry>) -> Seq<
    ProcessDescriptor,
>
    decreases rows.len(),
{
    if rows.len() == 0 {
        Seq::empty()
    } else {
        let head = if names_match(cmp, rows.last().name@, name) {
            seq![describe(rows.last())]
        } else {
            Seq::empty()
        };
        matching(cmp, name, rows.drop_last()) + head
    }
}

fn same_letter_exec(a: char, b: char) -> (r: bool)
    ensures
        r == same_letter(a, b),
{
    a == b || ('A' <= a && a <= 'Z' && (a as u32) + 32 == b as u32) || ('A' <= b && b <= 'Z'
        && (b as u32) + 32 == a as u32)
}

/// Compares a reported process name with the expected one.
pub fn name_matches(cmp: NameComparison, reported: &String, expected: &String) -> (r: bool)
    ensures
        r == names_match(cmp, reported@, expected@),
{
    match cmp {
        NameComparison::Exact => *reported == *expected,
        NameComparison::IgnoreAsciiCase => {
            let n = reported.as_str().unicode_len();
            if n != expected.as_str().unicode_len() {
                return false;
            }
            let mut i: usize = 0;
            while i < n
                invariant
                    n == reported@.len(),
                    n == expected@.len(),
                    i <= n,
                    forall|j: int| 0 <= j < i ==> #[trigger] same_letter(reported@[j], expected@[j]),
                decreases n - i,
            {
                let a = reported.as_str().get_char(i);
                let b = expected.as_str().get_char(i);
                if !same_letter_exec(a, b) {
                    return false;
                }
                i = i + 1;
            }
            true
        },
    }
}

/// Scans a snapshot of the process table for instances of the backend. Zero
/// matches is an empty result, not an error.
pub fn find_matching(cmp: NameComparison, name: &String, snapshot: &Vec<ProcessEntry>) -> (r: Vec<
    ProcessDescriptor,
>)
    ensures
        r@ == matching(cmp, name@, snapshot@),
{
    let mut r: Vec<ProcessDescriptor> = Vec::new();
    let mut i: usize = 0;
    while i < snapshot.len()
        invariant
            i <= snapshot@.len(),
            r@ == matching(cmp, name@, snapshot@.subrange(0, i as int)),
        decreases snapshot@.len() - i,
    {
        let row = &snapshot[i];
        proof {
            let pre = snapshot@.subrange(0, i + 1);
            assert(pre.drop_last() =~= snapshot@.subrange(0, i as int));
            assert(pre.last() == snapshot@[i as int]);
        }
        if name_matches(cmp, &row.name, name) {
            r.push(ProcessDescriptor { pid: row.pid, start_time: row.start_time });
            assert(r@ =~= matching(cmp, name@, snapshot@.subrange(0, i as int)) + seq![
                describe(snapshot@[i as int]),
            ]);
        } else {
            assert(r@ =~= matching(cmp, name@, snapshot@.subrange(0, i as int)) + Seq::empty());
        }
        i = i + 1;
    }
    assert(snapshot@.subrange(0, i as int) =~= snapshot@);
    r
}

} // verus!
