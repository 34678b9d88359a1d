use vstd::prelude::*;

verus! {

/// The lowercase equivalent of `text` under the Unicode case mappings.
pub uninterp spec fn lowercase_of(text: Seq<char>) -> Seq<char>;

/// `text` without its leading and trailing Unicode whitespace.
pub uninterp spec fn trimmed(text: Seq<char>) -> Seq<char>;

/// `str::to_lowercase` returns the lowercase equivalent of the slice as a new
/// `String`; the mapping depends on the characters alone.
pub assume_specification[ str::to_lowercase ](text: &str) -> (lowered: String)
    ensures
        lowered@ == lowercase_of(text@),
;

/// `str::trim` returns the sub-slice that is left when leading and trailing
/// whitespace is removed.
pub assume_specification[ str::trim ](text: &str) -> (inner: &str)
    ensures
        inner@ == trimmed(text@),
;

/// The form in which an effect identifier is matched: lowercased, then trimmed.
pub open spec fn normalized(name: Seq<char>) -> Seq<char> {
    trimmed(lowercase_of(name))
}

/// Whether two string slices hold the same characters.
pub fn same_text(left: &str, right: &str) -> (same: bool)
    ensures
        same == (left@ == right@),
{
    let a = left.as_bytes();
    let b = right.as_bytes();
    proof {
        vstd::utf8::encode_utf8_decode_utf8(left@);
        vstd::utf8::encode_utf8_decode_utf8(right@);
    }
    if a.len() != b.len() {
        return false;
    }
    let count: usize = a.len();
    let mut index: usize = 0;
    while index < count
        invariant
            count == a@.len(),
            count == b@.len(),
            index <= count,
            a@ == vstd::utf8::encode_utf8(left@),
            b@ == vstd::utf8::encode_utf8(right@),
            forall|i: int| 0 <= i < index ==> a@[i] == b@[i],
        decreases count - index,
    {
        if a[index] != b[index] {
            assert(a@[index as int] != b@[index as int]);
            return false;
        }
        index += 1;
    }
    assert(a@ =~= b@);
    true
}

} // verus!
