//! A commit message.

use crate::footer::Footer;
use crate::footer::FooterView;
use crate::text::opt_str_eq;
use crate::text::opt_text;
use crate::text::str_eq;
use vstd::prelude::*;
use vstd::std_specs::cmp::PartialEqSpec;

verus! {

/// What a commit holds: the characters of its texts, its flag, and what its
/// footers hold, in their order.
pub struct CommitView {
    pub ty: Seq<char>,
    pub scope: Option<Seq<char>>,
    pub desc: Seq<char>,
    pub body: Option<Seq<char>>,
    pub is_breaking_change: bool,
    pub footer: Seq<FooterView>,
}

/// What each footer of a sequence holds, in the same order.
pub open spec fn footer_views(footers: Seq<Footer<'_>>) -> Seq<FooterView> {
    Seq::new(footers.len(), |i: int| footers[i]@)
}

/// A commit message.
///
/// By the conventional commits convention a message is made out of a mandatory
/// description, an optional body and `0..n` optional footers. The different
/// sections are separated by an empty newline. Footers can be each separated
/// with a newline, however, this is not needed.
///
/// # Example
///
/// ```text
/// feat(some scope): a short and concise description
///
/// This is a longer body message. It can wrapped around
/// and be put onto multiple lines.
///
/// This is still part of the body.
///
/// Fixes #123
/// PR-close #124
/// Signed-off-by: SirWindfield
/// ```
#[derive(Debug, Eq, Hash)]
pub struct Commit<'a> {
    /// The optional body.
    pub body: Option<&'a str>,
    /// The mandatory description.
    pub desc: &'a str,
    /// A list of footers. Empty when none are part of the commit message.
    pub footer: Vec<Footer<'a>>,
    /// Set if the commit is a breaking change.
    pub is_breaking_change: bool,
    /// The optional scope.
    pub scope: Option<&'a str>,
    /// The mandatory type.
    ///
    /// Types other than `feat` and `fix` are optional.
    pub ty: &'a str,
}

impl<'a> View for Commit<'a> {
    type V = CommitView;

    open spec fn view(&self) -> CommitView {
        CommitView {
            ty: self.ty@,
            scope: opt_text(self.scope),
            desc: self.desc@,
            body: opt_text(self.body),
            is_breaking_change: self.is_breaking_change,
            footer: footer_views(self.footer@),
        }
    }
}

impl<'a> Commit<'a> {
    /// The view of the commit without type, scope, description, body or
    /// footers, which is no breaking change.
    pub open spec fn empty_view() -> CommitView {
        CommitView {
            ty: Seq::<char>::empty(),
            scope: None,
            desc: Seq::<char>::empty(),
            body: None,
            is_breaking_change: false,
            footer: Seq::<FooterView>::empty(),
        }
    }

    /// Creates a default commit: empty type and description, no scope, no
    /// body, no footers, and no breaking change.
    pub fn new() -> (commit: Self)
        ensures
            commit@ == Self::empty_view(),
            commit.footer@.len() == 0,
    {
        Default::default()
    }

    /// Creates a commit with the given values, as they are. The footers are
    /// moved into the commit and keep their order.
    pub fn from(
        ty: &'a str,
        scope: Option<&'a str>,
        desc: &'a str,
        body: Option<&'a str>,
        is_breaking_change: bool,
        footer: Vec<Footer<'a>>,
    ) -> (commit: Self)
        ensures
            commit@ == (CommitView {
                ty: ty@,
                scope: opt_text(scope),
                desc: desc@,
                body: opt_text(body),
                is_breaking_change: is_breaking_change,
                footer: footer_views(footer@),
            }),
            commit.ty == ty,
            commit.scope == scope,
            commit.desc == desc,
            commit.body == body,
            commit.is_breaking_change == is_breaking_change,
            commit.footer == footer,
    {
        Self { ty, scope, desc, body, is_breaking_change, footer }
    }
}

impl<'a> Clone for Commit<'a> {
    /// The copy holds the same fields, with a list of its own that holds the
    /// same footers in the same order.
    fn clone(&self) -> (commit: Self)
        ensures
            commit.body == self.body,
            commit.desc == self.desc,
            commit.footer@ == self.footer@,
            commit.is_breaking_change == self.is_breaking_change,
            commit.scope == self.scope,
            commit.ty == self.ty,
            commit@ == self@,
    {
        let footer = self.footer.clone();
        assert(footer@ =~= self.footer@);
        Commit {
            body: self.body,
            desc: self.desc,
            footer,
            is_breaking_change: self.is_breaking_change,
            scope: self.scope,
            ty: self.ty,
        }
    }
}

impl<'a> Default for Commit<'a> {
    fn default() -> (commit: Self)
        ensures
            commit@ == Self::empty_view(),
            commit.footer@.len() == 0,
    {
        proof {
            reveal_strlit("");
        }
        let commit = Commit {
            body: None,
            desc: "",
            footer: Vec::new(),
            is_breaking_change: false,
            scope: None,
            ty: "",
        };
        assert(commit.ty@ =~= Seq::<char>::empty());
        assert(footer_views(commit.footer@) =~= Seq::<FooterView>::empty());
        commit
    }
}

/// Tells whether two lists of footers have the same length and hold equal
/// footers at each place.
pub fn footers_eq(a: &Vec<Footer<'_>>, b: &Vec<Footer<'_>>) -> (same: bool)
    ensures
        same == (footer_views(a@) == footer_views(b@)),
{
    if a.len() != b.len() {
        assert(footer_views(a@).len() != footer_views(b@).len());
        return false;
    }
    let mut i: usize = 0;
    while i < a.len()
        invariant
            i <= a.len(),
            a.len() == b.len(),
            forall|j: int| 0 <= j < i ==> a@[j]@ == b@[j]@,
        decreases a.len() - i,
    {
        if !(a[i] == b[i]) {
            assert(footer_views(a@)[i as int] != footer_views(b@)[i as int]);
            return false;
        }
        i += 1;
    }
    assert(footer_views(a@) =~= footer_views(b@));
    true
}

impl<'a> PartialEq for Commit<'a> {
    /// Two commits are equal when all their fields are, the footers place
    /// by place.
    fn eq(&self, other: &Self) -> (same: bool) {
        opt_str_eq(self.body, other.body) && str_eq(self.desc, other.desc) && footers_eq(
            &self.footer,
            &other.footer,
        ) && self.is_breaking_change == other.is_breaking_change && opt_str_eq(
            self.scope,
            other.scope,
        ) && str_eq(self.ty, other.ty)
    }
}

impl<'a> vstd::std_specs::cmp::PartialEqSpecImpl for Commit<'a> {
    open spec fn obeys_eq_spec() -> bool {
        true
    }

    open spec fn eq_spec(&self, other: &Self) -> bool {
        self@ == other@
    }
}

/// Two commits are equal exactly when their types, scopes, descriptions,
/// bodies and flags are, they have as many footers, and the footers are equal
/// place by place: a commit equals itself, and a change to any one field
/// breaks the equality.
pub proof fn lemma_commit_eq_structural(a: Commit<'_>, b: Commit<'_>)
    ensures
        a.eq_spec(&b) <==> {
            &&& a.ty@ == b.ty@
            &&& opt_text(a.scope) == opt_text(b.scope)
            &&& a.desc@ == b.desc@
            &&& opt_text(a.body) == opt_text(b.body)
            &&& a.is_breaking_change == b.is_breaking_change
            &&& a.footer@.len() == b.footer@.len()
            &&& forall|i: int| 0 <= i < a.footer@.len() ==> a.footer@[i].eq_spec(&b.footer@[i])
        },
        a.eq_spec(&a),
{
    if a.footer@.len() == b.footer@.len() && (forall|i: int|
        0 <= i < a.footer@.len() ==> a.footer@[i].eq_spec(&b.footer@[i])) {
        assert(footer_views(a.footer@) =~= footer_views(b.footer@));
    }
    if footer_views(a.footer@) == footer_views(b.footer@) {
        assert(footer_views(a.footer@).len() == footer_views(b.footer@).len());
        assert forall|i: int| 0 <= i < a.footer@.len() implies a.footer@[i].eq_spec(
            &b.footer@[i],
        ) by {
            assert(footer_views(a.footer@)[i] == footer_views(b.footer@)[i]);
        }
    }
}

/// The order of the footers counts: two commits that hold the same two
/// unequal footers in opposite orders are unequal, whatever else they hold.
pub proof fn lemma_footer_order_matters(
    x: Commit<'_>,
    y: Commit<'_>,
    a: Footer<'_>,
    b: Footer<'_>,
)
    requires
        x.footer@ == seq![a, b],
        y.footer@ == seq![b, a],
        !a.eq_spec(&b),
    ensures
        !x.eq_spec(&y),
{
    assert(footer_views(x.footer@)[0] == a@);
    assert(footer_views(y.footer@)[0] == b@);
}

} // verus!
