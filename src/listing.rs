use vstd::prelude::*;

verus! {

/// One item of a directory listing: its name, and the direct download URL that only files have.
#[derive(Debug, PartialEq, Eq)]
pub struct Content {
    pub name: String,
    pub download_url: Option<String>,
}

impl Content {
    /// A field-for-field copy.
    pub fn duplicate(&self) -> (r: Content)
        ensures
            r == *self,
    {
        let download_url = match &self.download_url {
            Some(u) => Some(u.clone()),
            None => None,
        };
        Content { name: self.name.clone(), download_url }
    }
}

/// Can this entry be downloaded, i.e. does it carry a download URL?
pub open spec fn is_file(c: Content) -> bool {
    c.download_url is Some
}

/// The entries of `s` that are files, in the order of `s`.
pub open spec fn downloadable(s: Seq<Content>) -> Seq<Content> {
    s.filter(|c: Content| is_file(c))
}

/// The entries that `indices` pick out of `files`, in the order of `indices`; an index past the
/// end of `files` picks nothing.
pub open spec fn picked(files: Seq<Content>, indices: Seq<usize>) -> Seq<Content>
    decreases indices.len(),
{
    if indices.len() == 0 {
        Seq::empty()
    } else {
        let rest = picked(files, indices.drop_last());
        let i = indices.last();
        if i < files.len() {
            rest.push(files[i as int])
        } else {
            rest
        }
    }
}

/// Keeps the entries of a listing that are files, in the order received.
pub fn filter_files(contents: &Vec<Content>) -> (r: Vec<Content>)
    ensures
        r@ == downloadable(contents@),
{
    let mut out: Vec<Content> = Vec::new();
    let mut i: usize = 0;
    while i < contents.len()
        invariant
            i <= contents@.len(),
            out@ == downloadable(contents@.subrange(0, i as int)),
        decreases contents@.len() - i,
    {
        let c = &contents[i];
        proof {
            let pre = contents@.subrange(0, i as int + 1);
            assert(pre.drop_last() =~= contents@.subrange(0, i as int));
            assert(pre.last() == contents@[i as int]);
            reveal(Seq::filter);
        }
        if c.download_url.is_some() {
            out.push(c.duplicate());
        }
        i = i + 1;
    }
    assert(contents@.subrange(0, contents@.len() as int) =~= contents@);
    out
}

/// The names of `files`, in order, as offered for selection.
pub fn file_names(files: &Vec<Content>) -> (r: Vec<String>)
    ensures
        r@ == files@.map_values(|c: Content| c.name),
{
    let mut out: Vec<String> = Vec::new();
    let mut i: usize = 0;
    while i < files.len()
        invariant
            i <= files@.len(),
            out@.len() == i,
            forall|j: int| 0 <= j < i ==> #[trigger] out@[j] == files@[j].name,
        decreases files@.len() - i,
    {
        out.push(files[i].name.clone());
        i = i + 1;
    }
    assert(out@ =~= files@.map_values(|c: Content| c.name));
    out
}

/// Maps the indices chosen by the user back to entries of `files`, in the order of `indices`,
/// leaving out any index that names no entry.
pub fn select_entries(files: &Vec<Content>, indices: &Vec<usize>) -> (r: Vec<Content>)
    ensures
        r@ == picked(files@, indices@),
{
    let mut out: Vec<Content> = Vec::new();
    let mut k: usize = 0;
    while k < indices.len()
        invariant
            k <= indices@.len(),
            out@ == picked(files@, indices@.subrange(0, k as int)),
        decreases indices@.len() - k,
    {
        let i = indices[k];
        proof {
            let pre = indices@.subrange(0, k as int + 1);
            assert(pre.drop_last() =~= indices@.subrange(0, k as int));
            assert(pre.last() == i);
        }
        if i < files.len() {
            out.push(files[i].duplicate());
        }
        k = k + 1;
    }
    assert(indices@.subrange(0, indices@.len() as int) =~= indices@);
    out
}

/// Entries picked out of a sequence of files are files.
pub proof fn lemma_picked_files(files: Seq<Content>, indices: Seq<usize>)
    requires
        forall|i: int| 0 <= i < files.len() ==> is_file(#[trigger] files[i]),
    ensures
        forall|k: int|
            0 <= k < picked(files, indices).len() ==> is_file(#[trigger] picked(files, indices)[k]),
    decreases indices.len(),
{
    if indices.len() > 0 {
        lemma_picked_files(files, indices.drop_last());
        let rest = picked(files, indices.drop_last());
        assert forall|k: int| 0 <= k < picked(files, indices).len() implies is_file(
            #[trigger] picked(files, indices)[k],
        ) by {
            if k < rest.len() {
                assert(picked(files, indices)[k] == rest[k]);
            }
        }
    }
}

/// Filtering keeps exactly the entries that carry a download URL, in their relative
/// order: every kept entry is a file, every file is kept, one entry is kept alone exactly when
/// it is a file, and the result for a concatenation is the concatenation of the results.
pub proof fn lemma_filter_exact(s: Seq<Content>, t: Seq<Content>, c: Content)
    ensures
        forall|i: int| 0 <= i < downloadable(s).len() ==> is_file(#[trigger] downloadable(s)[i]),
        forall|i: int| 0 <= i < s.len() && is_file(s[i]) ==> #[trigger] downloadable(s).contains(s[i]),
        downloadable(s + t) == downloadable(s) + downloadable(t),
        downloadable(seq![c]) == (if is_file(c) { seq![c] } else { Seq::<Content>::empty() }),
{
    broadcast use Seq::lemma_filter_pred, Seq::lemma_filter_contains;

    Seq::filter_distributes_over_add(s, t, |c: Content| is_file(c));
    reveal_with_fuel(Seq::filter, 2);
    assert(seq![c].drop_last() =~= Seq::<Content>::empty());
}

} // verus!
