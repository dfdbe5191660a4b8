//! A footer of a commit message.

use crate::separator::FooterSeparator;
use crate::text::str_eq;
use vstd::prelude::*;
use vstd::std_specs::cmp::PartialEqSpec;

verus! {

/// What a footer holds: the characters of its token and of its value, and
/// the separator between them.
pub struct FooterView {
    pub token: Seq<char>,
    pub separator: FooterSeparator,
    pub value: Seq<char>,
}

/// A commit message footer.
#[derive(Debug, Eq, Hash)]
pub struct Footer<'a> {
    /// The footer word token.
    pub token: &'a str,
    /// The separator.
    pub separator: FooterSeparator,
    /// The footer's value.
    pub value: &'a str,
}

impl<'a> View for Footer<'a> {
    type V = FooterView;

    open spec fn view(&self) -> FooterView {
        FooterView { token: self.token@, separator: self.separator, value: self.value@ }
    }
}

impl<'a> Footer<'a> {
    /// The view of the footer with an empty token, the default separator
    /// and an empty value.
    pub open spec fn empty_view() -> FooterView {
        FooterView {
            token: Seq::<char>::empty(),
            separator: FooterSeparator::default_spec(),
            value: Seq::<char>::empty(),
        }
    }

    /// Creates a default footer: an empty token, the `ColonSpace` separator
    /// and an empty value.
    pub fn new() -> (footer: Self)
        ensures
            footer@ == Self::empty_view(),
            footer.separator == FooterSeparator::ColonSpace,
    {
        Default::default()
    }

    /// Creates a footer with the given values, as they are.
    pub fn from(token: &'a str, separator: FooterSeparator, value: &'a str) -> (footer: Self)
        ensures
            footer@ == (FooterView { token: token@, separator: separator, value: value@ }),
            footer.token == token,
            footer.separator == separator,
            footer.value == value,
    {
        Self { token, separator, value }
    }
}

impl<'a> Clone for Footer<'a> {
    /// The copy holds the same token, separator and value.
    fn clone(&self) -> (footer: Self)
        ensures
            footer == *self,
    {
        Footer { token: self.token, separator: self.separator, value: self.value }
    }
}

impl<'a> Default for Footer<'a> {
    fn default() -> (footer: Self)
        ensures
            footer@ == Self::empty_view(),
    {
        proof {
            reveal_strlit("");
        }
        let footer = Footer { token: "", separator: FooterSeparator::ColonSpace, value: "" };
        assert(footer.token@ =~= Seq::<char>::empty());
        footer
    }
}

impl<'a> PartialEq for Footer<'a> {
    /// Two footers are equal when their tokens, separators and values are.
    fn eq(&self, other: &Self) -> (same: bool) {
        str_eq(self.token, other.token) && self.separator == other.separator && str_eq(
            self.value,
            other.value,
        )
    }
}

impl<'a> vstd::std_specs::cmp::PartialEqSpecImpl for Footer<'a> {
    open spec fn obeys_eq_spec() -> bool {
        true
    }

    open spec fn eq_spec(&self, other: &Self) -> bool {
        self@ == other@
    }
}

/// Two footers are equal exactly when their tokens, their separators and
/// their values are: a footer equals itself, and a change to any one of the
/// three breaks the equality.
pub proof fn lemma_footer_eq_structural(a: Footer<'_>, b: Footer<'_>)
    ensures
        a.eq_spec(&b) <==> (a.token@ == b.token@ && a.separator == b.separator && a.value@
            == b.value@),
        a.eq_spec(&a),
{
}

} // verus!
