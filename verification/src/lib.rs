//! A text value that transparently holds either an owned, mutable buffer or
//! a borrowed, read-only slice, and exposes both through one uniform view.
//!
//! Reading never copies: the read view aliases whichever storage the value
//! currently holds. Asking for a mutable view of a `Borrowed` value first
//! copies the referenced text into a fresh buffer of the value's own
//! (promotion); once a value owns its buffer it never goes back to borrowing.

use vstd::prelude::*;

verus! {

/// A dual-representation text value: `Owned` holds an independently
/// allocated, growable buffer; `Borrowed` holds a non-owning reference to
/// text whose storage belongs to an external holder and must outlive this
/// value.
pub enum OOR<'a> {
    Owned(String),
    Borrowed(&'a str),
}

impl<'a> View for OOR<'a> {
    type V = Seq<char>;

    /// The text contents, regardless of which variant holds them.
    open spec fn view(&self) -> Seq<char> {
        match self {
            OOR::Owned(s) => s@,
            OOR::Borrowed(s) => s@,
        }
    }
}

impl<'a> OOR<'a> {
    /// Whether the value currently owns its storage.
    pub fn is_owned(&self) -> (b: bool)
        ensures
            b == (self is Owned),
    {
        match self {
            OOR::Owned(_) => true,
            OOR::Borrowed(_) => false,
        }
    }

    /// Read-only view of the contents: a text slice aliasing the current
    /// storage, whichever variant holds it. No copy is made.
    pub fn deref(&self) -> (r: &str)
        ensures
            r@ == self@,
    {
        match self {
            OOR::Owned(s) => s.as_str(),
            OOR::Borrowed(s) => *s,
        }
    }

    /// Mutable view of the contents. A value that already owns its buffer
    /// hands that very buffer out, with no copy and no variant change. A
    /// `Borrowed` value cannot hand out write access to storage it does not
    /// own, so it first copies the referenced text into a fresh buffer,
    /// becomes `Owned` of it, and discards the borrowed reference for good.
    /// The promotion happens on every mutable-view request, whether or not
    /// the caller then writes through the view.
    pub fn deref_mut(&mut self) -> (ret: &mut String)
        ensures
            (*ret)@ == old(self)@,
            (*old(self)) matches OOR::Owned(b) ==> *ret == b,
            *final(self) == OOR::Owned(*final(ret)),
            *final(ret) == *ret ==> write_view_untouched(*old(self), *final(self)),
    {
        if let OOR::Borrowed(s) = self {
            let owned: String = (*s).to_owned();
            *self = OOR::Owned(owned);
        }
        match self {
            OOR::Owned(s) => s,
            OOR::Borrowed(_) => unreached(),
        }
    }
}

/// What a mutable-view request leaves behind when the caller writes nothing
/// through the view: the value owns its buffer, the contents are unchanged,
/// and a value that already owned its buffer is left exactly as it was.
pub open spec fn write_view_untouched<'a>(pre: OOR<'a>, post: OOR<'a>) -> bool {
    &&& post is Owned
    &&& post@ == pre@
    &&& (pre is Owned ==> post == pre)
}

/// A value built as `Owned` reports the `Owned` variant and reads back
/// exactly the contents of the buffer it was built from.
pub proof fn lemma_owned_construction<'a>(b: String)
    ensures
        (OOR::<'a>::Owned(b)) is Owned,
        (OOR::<'a>::Owned(b))@ == b@,
{
}

/// A value built as `Borrowed` reports the `Borrowed` variant and reads back
/// exactly the contents of the reference it was built from.
pub proof fn lemma_borrowed_construction<'a>(r: &'a str)
    ensures
        (OOR::Borrowed(r)) is Borrowed,
        (OOR::Borrowed(r))@ == r@,
{
}

/// Idempotence of the mutable view: one request leaves the value `Owned`
/// with its contents intact, and a second request that writes nothing
/// changes neither the variant nor the value itself.
pub proof fn lemma_write_view_idempotent<'a>(v0: OOR<'a>, v1: OOR<'a>, v2: OOR<'a>)
    requires
        write_view_untouched(v0, v1),
        write_view_untouched(v1, v2),
    ensures
        v2 == v1,
        v2 is Owned,
{
}

/// Selects one of two text references without copying or transferring
/// ownership. Both inputs share one lifetime, so the result stays valid only
/// while both of them do: the caller cannot know at the call site which
/// branch was taken, so the contract is conservative on purpose.
pub fn choose_str<'a>(s1: &'a str, s2: &'a str, select_s1: bool) -> (r: &'a str)
    ensures
        select_s1 ==> r == s1,
        !select_s1 ==> r == s2,
{
    let result: &'a str;
    if select_s1 {
        result = s1;
    } else {
        result = s2;
    }
    result
}

/// A freshly allocated text buffer with blanks at both ends, for exercising
/// read access through the uniform view.
pub fn ret_string() -> (s: String)
    ensures
        s@ == "  A String object  "@,
{
    "  A String object  ".to_owned()
}

} // verus!
