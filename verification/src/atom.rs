//! Short texts that are shared rather than copied.
use std::rc::Rc;

use vstd::prelude::*;
use vstd::std_specs::cmp::PartialEqSpec;

use crate::upgrade::Upgrade;

verus! {

/// `Rc::<str>::from`, which copies the text into a shared allocation.
#[verifier::external_body]
fn shared_text(value: &str) -> (shared: Rc<str>)
    ensures
        (*shared)@ == value@,
{
    Rc::from(value)
}

/// `==` of two `str`, which tells whether they hold the same text.
#[verifier::external_body]
fn same_text(left: &str, right: &str) -> (same: bool)
    ensures
        same == (left@ == right@),
{
    left == right
}

/// A text that is shared rather than copied.
pub struct Atom(Rc<str>);

impl View for Atom {
    type V = Seq<char>;

    closed spec fn view(&self) -> Seq<char> {
        (*self.0)@
    }
}

impl Atom {
    /// The atom of a text.
    pub fn new(value: &str) -> (atom: Self)
        ensures
            atom@ == value@,
    {
        Atom(shared_text(value))
    }

    /// The atom of a text that is shared already.
    pub fn from_shared(shared: Rc<str>) -> (atom: Self)
        ensures
            atom@ == (*shared)@,
    {
        Atom(shared)
    }

    /// The shared text.
    pub fn as_shared(&self) -> (shared: &Rc<str>)
        ensures
            (**shared)@ == self@,
    {
        &self.0
    }

    /// The text.
    pub fn as_str(&self) -> (text: &str)
        ensures
            text@ == self@,
    {
        &self.0
    }

    /// A copy of the text.
    pub fn to_string(&self) -> (text: String)
        ensures
            text@ == self@,
    {
        self.as_str().to_owned()
    }
}

impl AsRef<str> for Atom {
    fn as_ref(&self) -> (text: &str)
        ensures
            text@ == self@,
    {
        self.as_str()
    }
}

impl core::borrow::Borrow<str> for Atom {
    fn borrow(&self) -> (text: &str)
        ensures
            str::view(text) == self@,
    {
        self.as_str()
    }
}

impl core::ops::Deref for Atom {
    type Target = str;

    fn deref(&self) -> (text: &str)
        ensures
            text@ == self@,
    {
        self.as_str()
    }
}

impl PartialEq for Atom {
    fn eq(&self, other: &Self) -> (same: bool) {
        same_text(self.as_str(), other.as_str())
    }
}

impl vstd::std_specs::cmp::PartialEqSpecImpl for Atom {
    open spec fn obeys_eq_spec() -> bool {
        true
    }

    open spec fn eq_spec(&self, other: &Self) -> bool {
        self@ == other@
    }
}

impl PartialEq<str> for Atom {
    fn eq(&self, other: &str) -> (same: bool) {
        same_text(self.as_str(), other)
    }
}

impl vstd::std_specs::cmp::PartialEqSpecImpl<str> for Atom {
    open spec fn obeys_eq_spec() -> bool {
        true
    }

    open spec fn eq_spec(&self, other: &str) -> bool {
        self@ == other@
    }
}

impl PartialEq<Atom> for str {
    fn eq(&self, other: &Atom) -> (same: bool) {
        same_text(self, other.as_str())
    }
}

impl vstd::std_specs::cmp::PartialEqSpecImpl<Atom> for str {
    open spec fn obeys_eq_spec() -> bool {
        true
    }

    open spec fn eq_spec(&self, other: &Atom) -> bool {
        self@ == other@
    }
}

impl<'a> From<&'a str> for Atom {
    fn from(value: &'a str) -> (atom: Self)
        ensures
            atom@ == value@,
    {
        Self::new(value)
    }
}

impl<'a> vstd::std_specs::convert::FromSpecImpl<&'a str> for Atom {
    open spec fn obeys_from_spec() -> bool {
        false
    }

    open spec fn from_spec(value: &'a str) -> Atom {
        arbitrary()
    }
}

impl From<String> for Atom {
    fn from(value: String) -> (atom: Self)
        ensures
            atom@ == value@,
    {
        Self::new(value.as_str())
    }
}

impl vstd::std_specs::convert::FromSpecImpl<String> for Atom {
    open spec fn obeys_from_spec() -> bool {
        false
    }

    open spec fn from_spec(value: String) -> Atom {
        arbitrary()
    }
}

/// What is left of an atom that has been let go of, where `W` is what is left of its shared text.
/// Whether the text is still there is for `W` to say, since it depends on who else holds it.
#[derive(Clone)]
pub struct WeakAtom<W>(W);

impl<W> View for WeakAtom<W> {
    type V = W;

    closed spec fn view(&self) -> W {
        self.0
    }
}

impl<W> WeakAtom<W> {
    /// What is left of an atom of whose shared text `text` is left.
    pub fn new(text: W) -> (weak: Self)
        ensures
            weak@ == text,
    {
        WeakAtom(text)
    }
}

impl<W> Upgrade for WeakAtom<W> where W: Upgrade<Target = Rc<str>> {
    type Target = Atom;

    open spec fn upgrades(&self, strong: Option<Atom>) -> bool {
        match strong {
            Some(atom) => exists|shared: Rc<str>| #[trigger]
                self@.upgrades(Some(shared)) && atom@ == (*shared)@,
            None => self@.upgrades(None),
        }
    }

    fn upgrade(&self) -> (strong: Option<Atom>) {
        match self.0.upgrade() {
            Some(shared) => {
                assert(self@.upgrades(Some(shared)));
                Some(Atom::from_shared(shared))
            },
            None => None,
        }
    }
}

/// Atoms are equal exactly when their texts are.
pub proof fn law_same_text(left: Atom, right: Atom)
    ensures
        left.eq_spec(&right) <==> left@ == right@,
{
}

/// An atom comes back as it was: if what is left of its shared text gives back that text or
/// nothing, what is left of the atom gives back an equal atom or nothing, and nothing exactly when
/// the text is gone.
pub proof fn law_atom_comes_back<W: Upgrade<Target = Rc<str>>>(
    atom: Atom,
    weak: WeakAtom<W>,
    back: Option<Atom>,
)
    requires
        forall|shared: Rc<str>| #[trigger]
            weak@.upgrades(Some(shared)) ==> (*shared)@ == atom@,
        weak.upgrades(back),
    ensures
        match back {
            Some(other) => other@ == atom@ && other.eq_spec(&atom),
            None => weak@.upgrades(None),
        },
{
}

/// An atom and a text are equal exactly when the atom's text is that text, whichever stands first.
pub proof fn law_same_text_as(atom: Atom, text: &str)
    ensures
        <Atom as PartialEqSpec<str>>::eq_spec(&atom, text) <==> atom@ == text@,
        <str as PartialEqSpec<Atom>>::eq_spec(text, &atom) <==> atom@ == text@,
        <Atom as PartialEqSpec<str>>::obeys_eq_spec(),
        <str as PartialEqSpec<Atom>>::obeys_eq_spec(),
        <Atom as PartialEqSpec<Atom>>::obeys_eq_spec(),
{
}

} // verus!
