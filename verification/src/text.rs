use vstd::prelude::*;
use vstd::utf8::encode_utf8;

verus! {

/// Returns the length of the borrowed string, counted in bytes of its
/// UTF-8 encoding.
pub fn calculate_length(s: &String) -> (len: usize)
    ensures
        len == encode_utf8(s@).len() as usize,
{
    s.as_str().len()
}

/// Appends ", world" to the borrowed string.
pub fn change(s: &mut String)
    ensures
        final(s)@ == old(s)@ + ", world"@,
{
    s.append(", world");
}

/// Returns whichever of the two string slices has the greater byte length,
/// preferring the second on a tie.
pub fn longest<'a>(x: &'a str, y: &'a str) -> (result: &'a str)
    ensures
        result@ == if encode_utf8(x@).len() as usize > encode_utf8(y@).len() as usize {
            x@
        } else {
            y@
        },
{
    if x.len() > y.len() {
        x
    } else {
        y
    }
}

} // verus!
