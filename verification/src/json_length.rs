use vstd::prelude::*;
use vstd::string::*;

verus! {

/// Where a left-to-right reading of JSON text stands: how many objects are
/// open, whether it is inside a string, and whether the byte before was a
/// backslash inside a string.
pub struct JsonScan {
    pub depth: nat,
    pub in_string: bool,
    pub escaped: bool,
}

/// The state before any byte is read.
pub open spec fn scan_start() -> JsonScan {
    JsonScan { depth: 0, in_string: false, escaped: false }
}

/// Whether the byte ends the JSON value: a `}` outside any string that
/// closes the outermost object (or that stands where no object is open).
pub open spec fn closes(state: JsonScan, b: u8) -> bool {
    !state.in_string && b == 0x7du8 && state.depth <= 1
}

/// The state after reading one more byte that does not end the value.
/// Inside a string a backslash escapes the next byte and an unescaped `"`
/// ends the string; outside, `"` starts a string within an open object,
/// `{` opens an object and `}` closes one. Before any object is open, text
/// is not read as JSON: a `"` there starts nothing.
pub open spec fn scan_step(state: JsonScan, b: u8) -> JsonScan {
    if state.in_string {
        if state.escaped {
            JsonScan { escaped: false, ..state }
        } else if b == 0x5cu8 {
            JsonScan { escaped: true, ..state }
        } else if b == 0x22u8 {
            JsonScan { in_string: false, ..state }
        } else {
            state
        }
    } else if b == 0x22u8 && state.depth > 0 {
        JsonScan { in_string: true, escaped: false, ..state }
    } else if b == 0x7bu8 {
        JsonScan { depth: state.depth + 1, ..state }
    } else if b == 0x7du8 && state.depth > 0 {
        JsonScan { depth: (state.depth - 1) as nat, ..state }
    } else {
        state
    }
}

/// The state after reading `bytes` from the start.
pub open spec fn scan(bytes: Seq<u8>) -> JsonScan
    decreases bytes.len(),
{
    if bytes.len() == 0 {
        scan_start()
    } else {
        scan_step(scan(bytes.drop_last()), bytes.last())
    }
}

/// Whether the byte at `i` ends the JSON value that the text starts with.
pub open spec fn ends_value_at(bytes: Seq<u8>, i: int) -> bool {
    0 <= i < bytes.len() && closes(scan(bytes.take(i)), bytes[i])
}

/// Finds where a JSON value ends in a string: the byte length of the text up
/// to and including the `}` that closes the first object, counting nested
/// objects and skipping braces inside its strings. A `}` met before any
/// object is open ends the text there. `None` when nothing closes.
pub fn json_length(string: &str) -> (res: Option<usize>)
    ensures
        match res {
            Some(n) => {
                &&& 0 < n <= string.spec_bytes().len()
                &&& ends_value_at(string.spec_bytes(), n - 1)
                &&& forall|i: int| 0 <= i < n - 1 ==> !ends_value_at(string.spec_bytes(), i)
            },
            None => forall|i: int|
                0 <= i < string.spec_bytes().len() ==> !ends_value_at(string.spec_bytes(), i),
        },
{
    let bytes = string.as_bytes();
    let mut depth: usize = 0;
    let mut in_string = false;
    let mut escaped = false;
    let mut i: usize = 0;
    while i < bytes.len()
        invariant
            bytes@ == string.spec_bytes(),
            i <= bytes@.len(),
            depth <= i,
            scan(bytes@.take(i as int)) == (JsonScan { depth: depth as nat, in_string, escaped }),
            forall|j: int| 0 <= j < i ==> !ends_value_at(bytes@, j),
        decreases bytes@.len() - i,
    {
        let b = bytes[i];
        assert(bytes@.take(i + 1).drop_last() =~= bytes@.take(i as int));
        assert(bytes@.take(i + 1).last() == b);
        if !in_string && b == 0x7d && depth <= 1 {
            return Some(i + 1);
        }
        if in_string {
            if escaped {
                escaped = false;
            } else if b == 0x5c {
                escaped = true;
            } else if b == 0x22 {
                in_string = false;
            }
        } else if b == 0x22 && depth > 0 {
            in_string = true;
            escaped = false;
        } else if b == 0x7b {
            depth = depth + 1;
        } else if b == 0x7d && depth > 0 {
            depth = depth - 1;
        }
        i = i + 1;
    }
    None
}

} // verus!
