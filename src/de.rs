use crate::capturable::Capturable;
use serde_plain::Error as PlainError;
use vstd::prelude::*;

verus! {

#[verifier::external_type_specification]
#[verifier::external_body]
pub struct ExPlainError(PlainError);

/// Why a string could not be turned into a record.
#[derive(Debug)]
pub enum Error {
    /// The pattern matched nowhere in the input.
    NoMatch,
    /// A captured text could not be converted to its field's type.
    Plain(PlainError),
    /// A structural problem with the record, such as a missing field.
    Custom(String),
}

impl Error {
    /// An error that carries the message `msg`.
    pub fn custom(msg: &str) -> (r: Error)
        ensures
            r matches Error::Custom(m) && m@ == msg@,
    {
        Error::Custom(msg.to_owned())
    }
}

impl From<PlainError> for Error {
    fn from(e: PlainError) -> Error {
        Error::Plain(e)
    }
}

impl vstd::std_specs::convert::FromSpecImpl<PlainError> for Error {
    open spec fn obeys_from_spec() -> bool {
        true
    }

    open spec fn from_spec(e: PlainError) -> Error {
        Error::Plain(e)
    }
}

/// The key/value pairs that a match presents: one pair for each group that has a
/// name and took part in the match, in the order the groups are declared.
pub open spec fn presented(names: Seq<Option<Seq<char>>>, groups: Seq<Option<Seq<char>>>) -> Seq<
    (Seq<char>, Seq<char>),
>
    decreases names.len(),
{
    if names.len() == 0 {
        seq![]
    } else {
        let i = names.len() - 1;
        let rest = presented(names.take(i), groups);
        match (names[i], if i < groups.len() { groups[i] } else { None }) {
            (Some(n), Some(v)) => rest.push((n, v)),
            _ => rest,
        }
    }
}

/// No unnamed group and no group that took no part in the match is presented:
/// every pair is the name and the text of one group that has both.
pub proof fn lemma_presented_only_named_participating(
    names: Seq<Option<Seq<char>>>,
    groups: Seq<Option<Seq<char>>>,
)
    ensures
        forall|k: int|
            0 <= k < presented(names, groups).len() ==> exists|i: int|
                0 <= i < names.len() && i < groups.len() && names[i] == Some(
                    #[trigger] presented(names, groups)[k].0,
                ) && groups[i] == Some(presented(names, groups)[k].1),
    decreases names.len(),
{
    if names.len() > 0 {
        let last = names.len() - 1;
        let prefix = names.take(last);
        lemma_presented_only_named_participating(prefix, groups);
        let rest = presented(prefix, groups);
        let all = presented(names, groups);
        assert forall|k: int| 0 <= k < all.len() implies exists|i: int|
            0 <= i < names.len() && i < groups.len() && names[i] == Some(#[trigger] all[k].0)
                && groups[i] == Some(all[k].1) by {
            if k < rest.len() {
                assert(all[k] == rest[k]);
                let i = choose|i: int|
                    0 <= i < prefix.len() && i < groups.len() && prefix[i] == Some(rest[k].0)
                        && groups[i] == Some(rest[k].1);
                assert(names[i] == prefix[i]);
            } else {
                assert(names[last] == Some(all[k].0));
            }
        }
    }
}

/// Every group that has a name and took part in the match is presented, with
/// its name and its text.
pub proof fn lemma_participating_group_presented(
    names: Seq<Option<Seq<char>>>,
    groups: Seq<Option<Seq<char>>>,
    i: int,
    name: Seq<char>,
    text: Seq<char>,
)
    requires
        0 <= i < names.len(),
        i < groups.len(),
        names[i] == Some(name),
        groups[i] == Some(text),
    ensures
        presented(names, groups).contains((name, text)),
    decreases names.len(),
{
    let last = names.len() - 1;
    let prefix = names.take(last);
    let all = presented(names, groups);
    if i == last {
        assert(all[all.len() - 1] == (name, text));
    } else {
        lemma_participating_group_presented(prefix, groups, i, name, text);
        let rest = presented(prefix, groups);
        let k = choose|k: int| 0 <= k < rest.len() && rest[k] == (name, text);
        assert(all[k] == rest[k]);
    }
}

/// A data source that presents the named captures of one match of `capture`
/// over `input` as a mapping from group names to captured text.
pub struct Deserializer<'de, C: Capturable> {
    input: &'de str,
    capture: C,
}

impl<'de, C: Capturable> Deserializer<'de, C> {
    pub closed spec fn spec_input(&self) -> Seq<char> {
        self.input@
    }

    pub closed spec fn spec_capture(&self) -> C {
        self.capture
    }

    /// The mapping this source presents, or `None` where the pattern does not match.
    pub open spec fn spec_map(&self) -> Option<Seq<(Seq<char>, Seq<char>)>> {
        match self.spec_capture().spec_captures(self.spec_input()) {
            None => None,
            Some(groups) => Some(presented(self.spec_capture().spec_names(), groups)),
        }
    }

    /// Holds `input` and `capture`; no matching happens yet.
    pub fn new(input: &'de str, capture: C) -> (r: Self)
        ensures
            r.spec_input() == input@,
            r.spec_capture() == capture,
    {
        Deserializer { input, capture }
    }

    /// Matches the input once and returns its named, participating groups as
    /// (name, text) pairs; fails with `NoMatch` exactly when nothing matches.
    pub fn deserialize_map(&self) -> (r: Result<Vec<(String, String)>, Error>)
        ensures
            self.spec_map() is None <==> r matches Err(Error::NoMatch),
            r is Err ==> r matches Err(Error::NoMatch),
            r matches Ok(v) ==> Some(v.deep_view()) == self.spec_map(),
    {
        let m = self.capture.captures(self.input);
        match m {
            None => Err(Error::NoMatch),
            Some((names, groups)) => {
                let mut out: Vec<(String, String)> = Vec::new();
                let ghost nv = names.deep_view();
                let ghost gv = groups.deep_view();
                let mut i: usize = 0;
                while i < names.len()
                    invariant
                        i <= names.len(),
                        nv == names.deep_view(),
                        gv == groups.deep_view(),
                        out.deep_view() == presented(nv.take(i as int), gv),
                    decreases names.len() - i,
                {
                    assert(nv.take(i + 1).take(i as int) =~= nv.take(i as int));
                    if i < groups.len() {
                        match (&names[i], &groups[i]) {
                            (Some(n), Some(v)) => {
                                out.push((n.clone(), v.clone()));
                                assert(out.deep_view() =~= presented(nv.take(i + 1), gv));
                            },
                            _ => {},
                        }
                    }
                    i = i + 1;
                }
                assert(nv.take(names.len() as int) =~= nv);
                Ok(out)
            },
        }
    }

    /// Every shape of request is served as a mapping.
    pub fn deserialize_any(&self) -> (r: Result<Vec<(String, String)>, Error>)
        ensures
            self.spec_map() is None <==> r matches Err(Error::NoMatch),
            r is Err ==> r matches Err(Error::NoMatch),
            r matches Ok(v) ==> Some(v.deep_view()) == self.spec_map(),
    {
        self.deserialize_map()
    }

    /// A record is served as a mapping from field names to text.
    pub fn deserialize_struct(&self) -> (r: Result<Vec<(String, String)>, Error>)
        ensures
            self.spec_map() is None <==> r matches Err(Error::NoMatch),
            r is Err ==> r matches Err(Error::NoMatch),
            r matches Ok(v) ==> Some(v.deep_view()) == self.spec_map(),
    {
        self.deserialize_map()
    }

    /// An enum is served as a mapping too.
    pub fn deserialize_enum(&self) -> (r: Result<Vec<(String, String)>, Error>)
        ensures
            self.spec_map() is None <==> r matches Err(Error::NoMatch),
            r is Err ==> r matches Err(Error::NoMatch),
            r matches Ok(v) ==> Some(v.deep_view()) == self.spec_map(),
    {
        self.deserialize_struct()
    }
}


/// Where the pattern matches nowhere in the input, nothing is presented: the
/// source fails with `NoMatch` and with no other error.
pub proof fn lemma_unmatched_presents_nothing<'de, C: Capturable>(d: &Deserializer<'de, C>)
    requires
        d.spec_capture().spec_captures(d.spec_input()) is None,
    ensures
        d.spec_map() is None,
{
}

/// The mapping depends on the input and on the provider's captures alone: two
/// sources over the same input and the same provider present the same pairs.
pub proof fn lemma_same_input_same_map<'de, C: Capturable>(
    d1: &Deserializer<'de, C>,
    d2: &Deserializer<'de, C>,
)
    requires
        d1.spec_input() == d2.spec_input(),
        d1.spec_capture() == d2.spec_capture(),
    ensures
        d1.spec_map() == d2.spec_map(),
{
}

} // verus!
