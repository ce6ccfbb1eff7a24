use vstd::prelude::*;

verus! {

/// The number of characters in a randomly generated code.
pub const CODE_LENGTH: usize = 7;

/// Whether `c` belongs to the URL-safe alphabet: the ASCII letters and
/// digits, the underscore and the hyphen.
pub open spec fn is_url_safe(c: char) -> bool {
    ||| 'a' <= c <= 'z'
    ||| 'A' <= c <= 'Z'
    ||| '0' <= c <= '9'
    ||| c == '_'
    ||| c == '-'
}

/// Whether `code` is made of exactly `size` URL-safe characters.
pub open spec fn is_safe_code(code: Seq<char>, size: nat) -> bool {
    code.len() == size && forall|i: int| 0 <= i < code.len() ==> is_url_safe(#[trigger] code[i])
}

/// A source of short codes.
pub trait IDProvider {
    /// Whether `code` is among the codes that this provider may hand out.
    /// A provider that does not say otherwise may hand out any code.
    open spec fn provides(&self, code: Seq<char>) -> bool {
        true
    }

    /// Hands out a code. It cannot fail.
    fn provide(&self) -> (code: String)
        ensures
            self.provides(code@),
    ;
}

/// Calls `nanoid::format` with `nanoid::rngs::default` as the source of random
/// bytes and `nanoid::alphabet::SAFE` as the alphabet. That function pushes
/// characters of the alphabet, all of them ASCII, until the string is `size`
/// bytes long; which characters come depends on chance, so only the length and
/// the alphabet are claimed. With a size of zero it would never return, and
/// it multiplies the size by eight.
#[verifier::external_body]
fn random_code(size: usize) -> (code: String)
    requires
        0 < size,
        8 * size <= usize::MAX,
    ensures
        is_safe_code(code@, size as nat),
{
    nanoid::format(nanoid::rngs::default, &nanoid::alphabet::SAFE, size)
}

/// Hands out random codes of `CODE_LENGTH` URL-safe characters. Two codes may
/// coincide, though rarely; nothing here detects that.
pub struct NanoIDProvider;

impl IDProvider for NanoIDProvider {
    open spec fn provides(&self, code: Seq<char>) -> bool {
        is_safe_code(code, CODE_LENGTH as nat)
    }

    fn provide(&self) -> (code: String) {
        random_code(CODE_LENGTH)
    }
}

/// Hands out one configured code every time, which makes the use cases
/// deterministic.
pub struct FakeIDProvider {
    id: String,
}

impl View for FakeIDProvider {
    type V = Seq<char>;

    /// The configured code.
    closed spec fn view(&self) -> Seq<char> {
        self.id@
    }
}

impl FakeIDProvider {
    /// A provider that hands out `id`.
    pub fn new(id: String) -> (provider: Self)
        ensures
            provider@ == id@,
    {
        Self { id }
    }

    /// Replaces the configured code by `id`.
    pub fn set_id(&mut self, id: String)
        ensures
            final(self)@ == id@,
    {
        self.id = id;
    }
}

impl IDProvider for FakeIDProvider {
    open spec fn provides(&self, code: Seq<char>) -> bool {
        code == self@
    }

    fn provide(&self) -> (code: String) {
        self.id.clone()
    }
}

} // verus!
