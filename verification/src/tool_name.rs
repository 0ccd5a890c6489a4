use vstd::prelude::*;

verus! {

/// Code point of a character after ASCII case folding: the letters `A`..`Z`
/// map to `a`..`z`, every other character is left as it is.
pub open spec fn fold_ascii_code(c: char) -> int {
    if 65 <= c as int && c as int <= 90 {
        c as int + 32
    } else {
        c as int
    }
}

/// Case-insensitive equality of two character sequences, folding only the
/// ASCII letters.  This is the matching rule the capability factories apply
/// to tool names.
pub open spec fn eq_ignore_ascii_case(a: Seq<char>, b: Seq<char>) -> bool {
    a.len() == b.len() && forall|i: int|
        0 <= i < a.len() ==> fold_ascii_code(a[i]) == fold_ascii_code(b[i])
}

/// Decides whether `name` names the tool `tool`, ignoring ASCII case.
pub fn tool_name_matches(name: &str, tool: &str) -> (result: bool)
    ensures
        result == eq_ignore_ascii_case(name@, tool@),
{
    let name_len = name.unicode_len();
    let tool_len = tool.unicode_len();
    if name_len != tool_len {
        return false;
    }
    let mut i: usize = 0;
    while i < name_len
        invariant
            0 <= i <= name_len,
            name_len == name@.len(),
            tool_len == tool@.len(),
            name_len == tool_len,
            forall|j: int| 0 <= j < i ==> fold_ascii_code(name@[j]) == fold_ascii_code(tool@[j]),
        decreases name_len - i,
    {
        let a = name.get_char(i) as u32;
        let b = tool.get_char(i) as u32;
        let a_folded = if 65 <= a && a <= 90 { a + 32 } else { a };
        let b_folded = if 65 <= b && b <= 90 { b + 32 } else { b };
        if a_folded != b_folded {
            return false;
        }
        i += 1;
    }
    true
}

} // verus!
