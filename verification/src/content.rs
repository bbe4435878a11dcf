//! One row of text, indexed by extended grapheme cluster.

use unicode_segmentation::UnicodeSegmentation;
use vstd::prelude::*;
use vstd::seq_lib::lemma_flatten_concat;

verus! {

/// The extended grapheme clusters of a text, in order, as
/// `unicode_segmentation` cuts them.
pub uninterp spec fn grapheme_clusters(text: Seq<char>) -> Seq<Seq<char>>;

/// Calls `UnicodeSegmentation::graphemes` with `is_extended` set and copies
/// each cluster into a `String`.
///
/// Trusted: the clusters are consecutive, non-empty slices of `text` that
/// begin at its start and end at its end, so joined they give `text` back.
#[verifier::external_body]
pub(crate) fn graphemes(text: &str) -> (clusters: Vec<String>)
    ensures
        clusters.deep_view() == grapheme_clusters(text@),
        clusters.deep_view().flatten() == text@,
        forall|i: int| 0 <= i < clusters.len() ==> (#[trigger] clusters[i])@.len() > 0,
{
    text.graphemes(true).map(|cluster| cluster.to_string()).collect()
}

/// The number of characters in the first `n` clusters.
pub open spec fn prefix_chars(clusters: Seq<Seq<char>>, n: int) -> int
    decreases n,
{
    if n <= 0 || n > clusters.len() {
        0
    } else {
        prefix_chars(clusters, n - 1) + clusters[n - 1].len()
    }
}

/// The first cluster index of a range that starts at `start`, in a line of `len` clusters.
pub open spec fn range_lo(start: int, len: int) -> int {
    if start < len {
        start
    } else {
        len
    }
}

/// The cluster index at which a range `[start, end)` stops, in a line of `len` clusters.
pub open spec fn range_hi(start: int, end: int, len: int) -> int {
    let lo = range_lo(start, len);
    if end < lo {
        lo
    } else if end < len {
        end
    } else {
        len
    }
}

/// A range `[start, end)` takes as many clusters of a line of `len` clusters
/// as lie between `start` and the smaller of `end` and `len`, and none where
/// that is before `start`. It stops at or before `end`.
pub proof fn lemma_range_size(start: int, end: int, len: int)
    requires
        0 <= start,
        0 <= end,
        0 <= len,
    ensures
        0 <= range_lo(start, len) <= range_hi(start, end, len) <= len,
        range_hi(start, end, len) - range_lo(start, len) == if end < len {
            if end > start {
                end - start
            } else {
                0
            }
        } else {
            if len > start {
                len - start
            } else {
                0
            }
        },
        start <= end ==> range_hi(start, end, len) <= end,
{
}

/// The first `n` clusters joined have `prefix_chars(clusters, n)` characters.
pub proof fn lemma_prefix_chars(clusters: Seq<Seq<char>>, n: int)
    requires
        0 <= n <= clusters.len(),
    ensures
        clusters.subrange(0, n).flatten().len() == prefix_chars(clusters, n),
        prefix_chars(clusters, n) >= 0,
    decreases n,
{
    if n == 0 {
        assert(clusters.subrange(0, 0) =~= Seq::<Seq<char>>::empty());
    } else {
        lemma_prefix_chars(clusters, n - 1);
        assert(clusters.subrange(0, n) =~= clusters.subrange(0, n - 1).push(clusters[n - 1]));
        clusters.subrange(0, n - 1).lemma_flatten_push(clusters[n - 1]);
    }
}

/// Joining the clusters `[lo, hi)` gives the slice of the joined whole that
/// lies between the characters before cluster `lo` and those before cluster
/// `hi`: a range of clusters is a contiguous piece of the text, cut at
/// cluster boundaries.
pub proof fn lemma_range_is_slice(clusters: Seq<Seq<char>>, lo: int, hi: int)
    requires
        0 <= lo <= hi <= clusters.len(),
    ensures
        0 <= prefix_chars(clusters, lo) <= prefix_chars(clusters, hi) <= clusters.flatten().len(),
        clusters.subrange(lo, hi).flatten() == clusters.flatten().subrange(
            prefix_chars(clusters, lo),
            prefix_chars(clusters, hi),
        ),
{
    let n = clusters.len() as int;
    let head = clusters.subrange(0, lo);
    let mid = clusters.subrange(lo, hi);
    let tail = clusters.subrange(hi, n);
    lemma_prefix_chars(clusters, lo);
    lemma_prefix_chars(clusters, hi);
    assert(clusters.subrange(0, hi) =~= head + mid);
    assert(clusters =~= clusters.subrange(0, hi) + tail);
    lemma_flatten_concat(head, mid);
    lemma_flatten_concat(clusters.subrange(0, hi), tail);
    assert(clusters.flatten() =~= head.flatten() + mid.flatten() + tail.flatten());
    assert(mid.flatten() =~= clusters.flatten().subrange(
        prefix_chars(clusters, lo),
        prefix_chars(clusters, hi),
    ));
}

/// Clusters that are not empty are no more than the characters they hold
/// together.
pub proof fn lemma_cluster_count(clusters: Seq<Seq<char>>)
    requires
        forall|i: int| 0 <= i < clusters.len() ==> (#[trigger] clusters[i]).len() > 0,
    ensures
        clusters.len() <= clusters.flatten().len(),
    decreases clusters.len(),
{
    if clusters.len() > 0 {
        lemma_cluster_count(clusters.drop_last());
        assert(clusters =~= clusters.drop_last().push(clusters.last()));
        clusters.drop_last().lemma_flatten_push(clusters.last());
    }
}

/// A row of text together with the number of its grapheme clusters.
#[derive(Debug)]
pub struct Data {
    text: String,
    len: usize,
}

impl View for Data {
    type V = Seq<char>;

    closed spec fn view(&self) -> Seq<char> {
        self.text@
    }
}

impl Data {
    #[verifier::type_invariant]
    spec fn well_formed(&self) -> bool {
        &&& self.len == grapheme_clusters(self.text@).len()
        &&& grapheme_clusters(self.text@).flatten() == self.text@
        &&& forall|i: int|
            0 <= i < grapheme_clusters(self.text@).len() ==> (#[trigger] grapheme_clusters(
                self.text@,
            )[i]).len() > 0
    }

    /// The clusters of the row.
    pub open spec fn clusters(&self) -> Seq<Seq<char>> {
        grapheme_clusters(self@)
    }

    /// Whether the clusters of the row spell its text and none of them is
    /// empty. This holds of every row.
    pub open spec fn spelled(&self) -> bool {
        &&& self.clusters().flatten() == self@
        &&& forall|i: int| 0 <= i < self.clusters().len() ==> (#[trigger] self.clusters()[i]).len() > 0
    }

    /// The clusters `[start, end)` of the row, joined: as many of them as
    /// the row has. The range is empty where it starts at or past the end of
    /// the row, or ends before it starts.
    pub open spec fn range(&self, start: int, end: int) -> Seq<char> {
        let len = self.clusters().len() as int;
        self.clusters().subrange(range_lo(start, len), range_hi(start, end, len)).flatten()
    }

    /// Builds a row from an owned string.
    pub fn new(text: String) -> (row: Data)
        ensures
            row@ == text@,
            row.clusters() == grapheme_clusters(text@),
            row.spelled(),
    {
        let clusters = graphemes(text.as_str());
        proof {
            lemma_clusters_of(clusters);
        }
        Data { text, len: clusters.len() }
    }

    /// The whole text of the row.
    pub fn display(&self) -> (text: String)
        ensures
            text@ == self@,
    {
        self.text.clone()
    }

    /// The clusters `[start, end)` of the row, joined. A range that reaches
    /// past the last cluster stops there; one that starts at or past the end
    /// of the row, or ends before it starts, is empty.
    pub fn display_range(&self, start: usize, end: usize) -> (text: String)
        ensures
            self.spelled(),
            text@ == self.range(start as int, end as int),
            start == 0 && end >= self.clusters().len() ==> text@ == self@,
            text@ == self@.subrange(
                prefix_chars(self.clusters(), range_lo(start as int, self.clusters().len() as int)),
                prefix_chars(
                    self.clusters(),
                    range_hi(start as int, end as int, self.clusters().len() as int),
                ),
            ),
    {
        proof {
            use_type_invariant(self);
        }
        let clusters = graphemes(self.text.as_str());
        let n = clusters.len();
        let lo = if start < n { start } else { n };
        let hi = if end < lo { lo } else if end < n { end } else { n };
        let ghost all = clusters.deep_view();
        let mut text = String::new();
        let mut i = lo;
        assert(all.subrange(lo as int, lo as int) =~= Seq::<Seq<char>>::empty());
        while i < hi
            invariant
                lo <= i <= hi <= n,
                n == clusters.len(),
                all == clusters.deep_view(),
                text@ == all.subrange(lo as int, i as int).flatten(),
            decreases hi - i,
        {
            proof {
                assert(all.subrange(lo as int, i + 1) =~= all.subrange(lo as int, i as int).push(
                    all[i as int],
                ));
                all.subrange(lo as int, i as int).lemma_flatten_push(all[i as int]);
                assert(all[i as int] == clusters[i as int]@);
            }
            text.append(clusters[i].as_str());
            i += 1;
        }
        proof {
            lemma_range_is_slice(all, lo as int, hi as int);
            if start == 0 && end >= n {
                assert(all.subrange(0, n as int) =~= all);
            }
        }
        text
    }

    /// The number of grapheme clusters in the row.
    pub fn len(&self) -> (n: usize)
        ensures
            n == self.clusters().len(),
            n <= self@.len(),
            self.spelled(),
    {
        proof {
            use_type_invariant(self);
            lemma_cluster_count(self.clusters());
        }
        self.len
    }

    /// Whether the row has no grapheme cluster, which is the case exactly
    /// when it has no text.
    pub fn is_empty(&self) -> (empty: bool)
        ensures
            empty == (self.clusters().len() == 0),
            empty == (self@.len() == 0),
            self.spelled(),
    {
        proof {
            use_type_invariant(self);
            lemma_cluster_count(self.clusters());
        }
        self.len == 0
    }
}

impl<'a> From<&'a str> for Data {
    /// Builds a row from a string slice.
    fn from(text: &'a str) -> (row: Data)
        ensures
            row@ == text@,
            row.clusters() == grapheme_clusters(text@),
            row.spelled(),
    {
        Data::new(String::from_str(text))
    }
}

/// A row cannot be built in ghost code, so the conversion has no ghost
/// counterpart: what it gives is stated on `from` itself.
impl<'a> vstd::std_specs::convert::FromSpecImpl<&'a str> for Data {
    open spec fn obeys_from_spec() -> bool {
        false
    }

    open spec fn from_spec(text: &'a str) -> Data {
        arbitrary()
    }
}

impl Clone for Data {
    fn clone(&self) -> (row: Data)
        ensures
            row@ == self@,
            row.spelled(),
    {
        proof {
            use_type_invariant(self);
        }
        Data { text: self.text.clone(), len: self.len }
    }
}

impl Default for Data {
    /// The empty row.
    fn default() -> (row: Data)
        ensures
            row@.len() == 0,
    {
        let row = Data::new(String::new());
        row
    }
}

impl PartialEq for Data {
    /// Rows are equal where their texts are.
    fn eq(&self, other: &Data) -> (equal: bool) {
        self.text == other.text
    }
}

impl Eq for Data {

}

impl vstd::std_specs::cmp::PartialEqSpecImpl for Data {
    open spec fn obeys_eq_spec() -> bool {
        true
    }

    open spec fn eq_spec(&self, other: &Data) -> bool {
        self@ == other@
    }
}

/// The views of the clusters are the clusters of the views.
proof fn lemma_clusters_of(clusters: Vec<String>)
    ensures
        forall|i: int|
            0 <= i < clusters.len() ==> (#[trigger] clusters.deep_view()[i]) == clusters[i]@,
        clusters.deep_view().len() == clusters.len(),
{
}

} // verus!
