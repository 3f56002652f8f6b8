use vstd::prelude::*;

verus! {

/// A capture group's name, or `None` for a group declared without one.
pub type GroupName = Option<String>;

/// What one group captured, or `None` where it took no part in the match.
pub type GroupText = Option<String>;

/// A source of regular-expression captures over a haystack.
///
/// `spec_names` is the sequence of group names the pattern declares, in order of
/// declaration, and does not depend on the haystack. `spec_captures` is what the
/// first match in a haystack captured, group by group, or `None` where there is
/// no match.
pub trait Capturable {
    spec fn spec_names(&self) -> Seq<Option<Seq<char>>>;

    spec fn spec_captures(&self, haystack: Seq<char>) -> Option<Seq<Option<Seq<char>>>>;

    /// Matches once against `haystack`; on success returns the declared group
    /// names together with the groups of the match.
    fn captures(&self, haystack: &str) -> (r: Option<(Vec<GroupName>, Vec<GroupText>)>)
        ensures
            r.is_none() <==> self.spec_captures(haystack@).is_none(),
            r matches Some(p) ==> p.0.deep_view() == self.spec_names() && Some(p.1.deep_view())
                == self.spec_captures(haystack@),
    ;
}

impl<'a, C: Capturable> Capturable for &'a C {
    open spec fn spec_names(&self) -> Seq<Option<Seq<char>>> {
        (**self).spec_names()
    }

    open spec fn spec_captures(&self, haystack: Seq<char>) -> Option<Seq<Option<Seq<char>>>> {
        (**self).spec_captures(haystack)
    }

    fn captures(&self, haystack: &str) -> (r: Option<(Vec<GroupName>, Vec<GroupText>)>) {
        (**self).captures(haystack)
    }
}

} // verus!
