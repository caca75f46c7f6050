use unicode_segmentation::UnicodeSegmentation;
use vstd::prelude::*;
use vstd::string::StringExecFns;

verus! {

/// The extended grapheme clusters of `s`, in order, as
/// `unicode_segmentation` splits them.
pub uninterp spec fn graphemes_of(s: Seq<char>) -> Seq<Seq<char>>;

/// The characters of each string.
pub open spec fn texts(v: Seq<String>) -> Seq<Seq<char>> {
    v.map_values(|g: String| g@)
}

/// Relies on `UnicodeSegmentation::graphemes` (extended clusters), which
/// splits its input into consecutive pieces that make it up.
#[verifier::external_body]
fn graphemes(s: &str) -> (r: Vec<String>)
    ensures
        texts(r@) == graphemes_of(s@),
        texts(r@).flatten() == s@,
{
    s.graphemes(true).map(|g| g.to_owned()).collect()
}

/// The clusters of `gs` in reverse order, each kept as it is.
pub open spec fn reversed_clusters(gs: Seq<Seq<char>>) -> Seq<char>
    decreases gs.len(),
{
    if gs.len() == 0 {
        Seq::empty()
    } else {
        gs.last() + reversed_clusters(gs.drop_last())
    }
}

/// A site origin: scheme prefix and host.
#[derive(Debug, Clone)]
pub struct Origin {
    pub prefix: String,
    pub host: String,
    pub frecency: i64,
}

impl Origin {
    /// The host reversed by grapheme, so that accents and other combining
    /// marks stay with their letters.
    pub fn rev_host(&self) -> (r: String)
        ensures
            r@ == reversed_clusters(graphemes_of(self.host@)),
    {
        let gs = graphemes(self.host.as_str());
        let ghost v = texts(gs@);
        let mut acc = String::new();
        let mut i: usize = 0;
        while i < gs.len()
            invariant
                i <= gs@.len(),
                v == texts(gs@),
                v.len() == gs@.len(),
                acc@ == reversed_clusters(v.take(i as int)),
            decreases gs.len() - i,
        {
            assert(v.take(i + 1).drop_last() =~= v.take(i as int));
            assert(v.take(i + 1).last() == gs@[i as int]@);
            let mut next = gs[i].clone();
            next.append(acc.as_str());
            acc = next;
            i = i + 1;
        }
        assert(v.take(gs@.len() as int) =~= v);
        acc
    }
}

} // verus!
