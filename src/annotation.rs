use vstd::prelude::*;

verus! {

/// Why a pattern annotation was refused.
pub enum AnnotationError {
    /// The annotation holds a key other than `re`; the key is given.
    Unrecognized(String),
}

/// The pattern that an annotation's (key, value) entries give, read in order:
/// each `re` entry sets the pattern, and the first other key is refused.
/// `current` is the pattern read so far.
pub open spec fn annotation_pattern(entries: Seq<(Seq<char>, Seq<char>)>, current: Seq<char>) -> Result<
    Seq<char>,
    Seq<char>,
>
    decreases entries.len(),
{
    if entries.len() == 0 {
        Ok(current)
    } else if entries[0].0 == "re"@ {
        annotation_pattern(entries.drop_first(), entries[0].1)
    } else {
        Err(entries[0].0)
    }
}

/// Reads the pattern out of an annotation's entries. With no entry the
/// pattern is empty; where `re` is given twice the last one counts.
pub fn get_re(entries: &Vec<(String, String)>) -> (r: Result<String, AnnotationError>)
    ensures
        match annotation_pattern(entries.deep_view(), seq![]) {
            Ok(p) => r matches Ok(s) && s@ == p,
            Err(k) => r matches Err(AnnotationError::Unrecognized(x)) && x@ == k,
        },
{
    let key = "re".to_owned();
    let mut s = String::new();
    let ghost ev = entries.deep_view();
    let mut i: usize = 0;
    assert(ev.skip(0) =~= ev);
    while i < entries.len()
        invariant
            i <= entries.len(),
            ev == entries.deep_view(),
            key@ == "re"@,
            annotation_pattern(ev, seq![]) == annotation_pattern(ev.skip(i as int), s@),
        decreases entries.len() - i,
    {
        assert(ev.skip(i as int).drop_first() =~= ev.skip(i + 1));
        if entries[i].0 == key {
            s = entries[i].1.clone();
        } else {
            return Err(AnnotationError::Unrecognized(entries[i].0.clone()));
        }
        i = i + 1;
    }
    Ok(s)
}

} // verus!
