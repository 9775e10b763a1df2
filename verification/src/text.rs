//! Text as mruby's C API takes it: a string it can copy into a C string,
//! and the messages the engine composes from names and Ruby's own words.

use vstd::prelude::*;
use vstd::string::StringSliceAdditionalSpecFns;

verus! {

/// Whether the UTF-8 bytes of `s` hold a NUL byte, so that no C string
/// can carry it.
pub open spec fn has_nul(s: &str) -> bool {
    s.spec_bytes().contains(0u8)
}

/// A message that names what it is about: `name`, a colon, a space, then
/// the message itself.
pub open spec fn named(name: Seq<char>, message: Seq<char>) -> Seq<char> {
    name + seq![':', ' '] + message
}

/// Whether `s` can be handed to C as a string, that is, carries no NUL byte.
pub fn carries_nul(s: &str) -> (found: bool)
    ensures
        found == has_nul(s),
{
    let bytes = s.as_bytes();
    let mut i: usize = 0;
    while i < bytes.len()
        invariant
            bytes@ == s.spec_bytes(),
            i <= bytes@.len(),
            forall|j: int| 0 <= j < i ==> bytes@[j] != 0u8,
        decreases bytes@.len() - i,
    {
        if bytes[i] == 0u8 {
            assert(bytes@[i as int] == 0u8);
            return true;
        }
        i = i + 1;
    }
    assert(!bytes@.contains(0u8));
    false
}

/// `name`, a colon and a space, then `message`.
pub fn naming(name: &str, message: &str) -> (text: String)
    ensures
        text@ == named(name@, message@),
{
    let mut text = String::from_str(name);
    text.append(": ");
    text.append(message);
    proof {
        reveal_strlit(": ");
        assert(": "@ =~= seq![':', ' ']);
    }
    text
}


/// A string carries a NUL byte exactly when one of its UTF-8 bytes is 0:
/// any other byte, ASCII or not, a backslash or a quote, can reach C.
pub proof fn lemma_nul_is_a_zero_byte(s: &str)
    ensures
        has_nul(s) <==> exists|i: int| 0 <= i < s.spec_bytes().len() && s.spec_bytes()[i] == 0u8,
        !has_nul(s) <==> forall|i: int| 0 <= i < s.spec_bytes().len() ==> s.spec_bytes()[i] != 0u8,
{
    if has_nul(s) {
        let i = s.spec_bytes().index_of(0u8);
        assert(s.spec_bytes()[i] == 0u8);
    }
    if exists|i: int| 0 <= i < s.spec_bytes().len() && s.spec_bytes()[i] == 0u8 {
        let i = choose|i: int| 0 <= i < s.spec_bytes().len() && s.spec_bytes()[i] == 0u8;
        assert(s.spec_bytes().contains(0u8));
    }
}


/// A named message starts with the name, then a colon and a space, and
/// ends with the message, unchanged.
pub proof fn lemma_named_message(name: Seq<char>, message: Seq<char>)
    ensures
        named(name, message).len() == name.len() + 2 + message.len(),
        named(name, message).subrange(0, name.len() as int) == name,
        named(name, message)[name.len() as int] == ':',
        named(name, message)[name.len() + 1int] == ' ',
        named(name, message).subrange(name.len() + 2int, named(name, message).len() as int)
            == message,
{
    let whole = named(name, message);
    assert(whole.subrange(0, name.len() as int) =~= name);
    assert(whole.subrange(name.len() + 2int, whole.len() as int) =~= message);
}

} // verus!
