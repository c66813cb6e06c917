//! Choosing the cover art of a track among the pictures of its tags.
use vstd::prelude::*;
use image::{DynamicImage, ImageError};
use crate::app::App;

verus! {

#[verifier::external_type_specification]
#[verifier::external_body]
pub struct ExDynamicImage(image::DynamicImage);

#[verifier::external_type_specification]
#[verifier::external_body]
pub struct ExImageError(image::ImageError);

/// Calls `image::load_from_memory`, which guesses the format from the bytes and
/// decodes them. Nothing is claimed of when it succeeds: format detection and
/// decoding also consult process-wide registries of hooks that any code may add
/// to, so the same bytes need not give the same outcome. The call panics if the
/// lock of one of those registries was poisoned by another thread. The second
/// component records, for proofs only, the bytes that were handed to the call.
#[verifier::external_body]
fn load_from_memory(bytes: &[u8]) -> (r: (Result<DynamicImage, ImageError>, Ghost<Seq<u8>>))
    ensures
        r.1@ == bytes@,
{
    (image::load_from_memory(bytes), Ghost(bytes@))
}

/// Calls `DynamicImage::to_rgb8` and wraps the pixels as an 8-bit RGB image;
/// nothing is claimed of the result.
#[verifier::external_body]
fn to_rgb_image(img: &DynamicImage) -> DynamicImage {
    DynamicImage::ImageRgb8(img.to_rgb8())
}

/// The tags in the order they are searched: the primary tag first, then all tags.
pub open spec fn tag_order(primary: Option<Vec<Vec<u8>>>, tags: Seq<Vec<Vec<u8>>>) -> Seq<Vec<Vec<u8>>> {
    match primary {
        Some(p) => seq![p] + tags,
        None => tags,
    }
}

/// Whether a tag has a picture to try.
pub open spec fn has_picture(pictures: Vec<Vec<u8>>) -> bool {
    pictures@.len() > 0
}

/// The first picture of a tag, if it has any.
pub open spec fn first_picture_of(pictures: Vec<Vec<u8>>) -> Option<Seq<u8>> {
    if pictures@.len() > 0 { Some(pictures@[0]@) } else { None }
}

/// The bytes of an optional picture.
pub open spec fn bytes_of(o: Option<&[u8]>) -> Option<Seq<u8>> {
    match o {
        Some(b) => Some(b@),
        None => None,
    }
}

/// What is tried for each tag, in search order: its first picture, or nothing.
pub open spec fn candidates(primary: Option<Vec<Vec<u8>>>, tags: Seq<Vec<Vec<u8>>>) -> Seq<Option<Seq<u8>>> {
    tag_order(primary, tags).map_values(|t: Vec<Vec<u8>>| first_picture_of(t))
}

/// Whether the outcome of a tag is a decoded picture (`None` stands for a tag
/// without pictures).
pub open spec fn is_decoded(o: Option<Result<DynamicImage, ImageError>>) -> bool {
    o matches Some(Ok(_))
}

/// Whether `outs` are the outcomes of trying `cands` in order until one
/// decodes, the bytes handed to the decoder being `tried`: one outcome per
/// candidate tried, a decoding of exactly the candidate's bytes where there is
/// a picture, nothing decoded before the last outcome, and, when not every
/// candidate was tried, the last outcome decoded.
pub open spec fn decode_run(
    cands: Seq<Option<Seq<u8>>>,
    outs: Seq<Option<Result<DynamicImage, ImageError>>>,
    tried: Seq<Seq<u8>>,
) -> bool {
    &&& outs.len() <= cands.len()
    &&& tried.len() == outs.len()
    &&& forall|j: int| 0 <= j < outs.len() ==> (#[trigger] outs[j] is Some <==> cands[j] is Some)
    &&& forall|j: int| 0 <= j < outs.len() && cands[j] is Some ==> #[trigger] tried[j] == cands[j]->0
    &&& forall|j: int| 0 <= j < outs.len() - 1 ==> !is_decoded(#[trigger] outs[j])
    &&& outs.len() < cands.len() ==> outs.len() > 0 && is_decoded(outs[outs.len() - 1])
}

/// Whether `k` is the position of the first decoded outcome, or, when `None`,
/// whether none decoded.
pub open spec fn chooses(k: Option<usize>, outs: Seq<Option<Result<DynamicImage, ImageError>>>) -> bool {
    match k {
        Some(k) => {
            &&& k < outs.len()
            &&& is_decoded(outs[k as int])
            &&& forall|j: int| 0 <= j < k ==> !is_decoded(#[trigger] outs[j])
        },
        None => forall|j: int| 0 <= j < outs.len() ==> !is_decoded(#[trigger] outs[j]),
    }
}

/// The choice among outcomes: a position is chosen exactly when its outcome
/// is a decoded picture and none before it is; nothing is chosen exactly when
/// no outcome is a decoded picture.
pub proof fn law_chooses_first_success(k: usize, outs: Seq<Option<Result<DynamicImage, ImageError>>>)
    ensures
        chooses(Some(k), outs) <==> (k < outs.len() && outs[k as int] is Some && outs[k as int]->0 is Ok
            && forall|j: int| 0 <= j < k ==> !(#[trigger] outs[j] is Some && outs[j]->0 is Ok)),
        chooses(None, outs) <==> forall|j: int| 0 <= j < outs.len() ==> !(#[trigger] outs[j] is Some && outs[j]->0 is Ok),
{
}

/// What is tried for each tag: the primary tag's first picture first (if there
/// is a primary tag), then each tag's first picture in order; `None` for a tag
/// without pictures.
pub proof fn law_candidates(primary: Option<Vec<Vec<u8>>>, tags: Seq<Vec<Vec<u8>>>)
    ensures
        candidates(primary, tags).len() == tags.len() + (if primary is Some { 1int } else { 0int }),
        primary matches Some(p) ==> candidates(primary, tags)[0] == (if primary->0@.len() > 0 {
            Some(primary->0@[0]@)
        } else {
            None
        }),
        primary is None ==> forall|j: int| 0 <= j < tags.len() ==> candidates(primary, tags)[j] == (if #[trigger] tags[j]@.len() > 0 {
            Some(tags[j]@[0]@)
        } else {
            None
        }),
        primary is Some ==> forall|j: int| 0 <= j < tags.len() ==> candidates(primary, tags)[j + 1] == (if #[trigger] tags[j]@.len() > 0 {
            Some(tags[j]@[0]@)
        } else {
            None
        }),
{
    let off: int = if primary is Some { 1 } else { 0 };
    assert forall|j: int| 0 <= j < tags.len() implies candidates(primary, tags)[j + off]
        == (if #[trigger] tags[j]@.len() > 0 { Some(tags[j]@[0]@) } else { None }) by {
        assert(tag_order(primary, tags)[j + off] == tags[j]);
    }
}

/// The position of an optional cover.
pub open spec fn position_of(c: Option<(usize, DynamicImage)>) -> Option<usize> {
    match c {
        Some((k, _)) => Some(k),
        None => None,
    }
}

/// For each tag, in search order (primary tag first, then every tag), its
/// first picture, or `None` when it has none.
pub fn first_pictures<'a>(primary: &'a Option<Vec<Vec<u8>>>, tags: &'a Vec<Vec<Vec<u8>>>) -> (r: Vec<Option<&'a [u8]>>)
    ensures
        r@.len() == candidates(*primary, tags@).len(),
        forall|j: int| 0 <= j < r@.len() ==> bytes_of(#[trigger] r@[j]) == candidates(*primary, tags@)[j],
{
    let ghost order = tag_order(*primary, tags@);
    let ghost offset: int = if primary is Some { 1 } else { 0 };
    let mut r: Vec<Option<&'a [u8]>> = Vec::new();
    if let Some(p) = primary {
        assert(order[0] == *p);
        if p.len() > 0 {
            r.push(Some(p[0].as_slice()));
        } else {
            r.push(None);
        }
    }
    let mut i: usize = 0;
    while i < tags.len()
        invariant
            i <= tags@.len(),
            order == tag_order(*primary, tags@),
            offset == (if primary is Some { 1int } else { 0int }),
            r@.len() == offset + i,
            forall|j: int| 0 <= j < r@.len() ==> bytes_of(#[trigger] r@[j]) == first_picture_of(order[j]),
        decreases tags@.len() - i,
    {
        assert(order[offset + i] == tags@[i as int]);
        let pictures = &tags[i];
        if pictures.len() > 0 {
            r.push(Some(pictures[0].as_slice()));
        } else {
            r.push(None);
        }
        i = i + 1;
    }
    r
}

/// Tries the candidates in order, decoding each picture, until one decodes:
/// the outcomes, one per candidate tried, with `None` where there was no
/// picture, and (for proofs) the bytes handed to the decoder for each.
pub fn decode_until_decoded(cands: &Vec<Option<&[u8]>>) -> (r: (Vec<Option<Result<DynamicImage, ImageError>>>, Ghost<Seq<Seq<u8>>>))
    ensures
        decode_run(cands@.map_values(|c: Option<&[u8]>| bytes_of(c)), r.0@, r.1@),
{
    let ghost cv = cands@.map_values(|c: Option<&[u8]>| bytes_of(c));
    let ghost mut tried: Seq<Seq<u8>> = Seq::empty();
    let mut outs: Vec<Option<Result<DynamicImage, ImageError>>> = Vec::new();
    let mut found = false;
    let mut i: usize = 0;
    while i < cands.len() && !found
        invariant
            i <= cands@.len(),
            cv == cands@.map_values(|c: Option<&[u8]>| bytes_of(c)),
            outs@.len() == i,
            tried.len() == i,
            forall|j: int| 0 <= j < outs@.len() ==> (#[trigger] outs@[j] is Some <==> cv[j] is Some),
            forall|j: int| 0 <= j < outs@.len() && cv[j] is Some ==> #[trigger] tried[j] == cv[j]->0,
            forall|j: int| 0 <= j < outs@.len() - 1 ==> !is_decoded(#[trigger] outs@[j]),
            found <==> (outs@.len() > 0 && is_decoded(outs@[outs@.len() - 1])),
        decreases cands@.len() - i,
    {
        match cands[i] {
            Some(bytes) => {
                let (r, handed) = load_from_memory(bytes);
                proof { tried = tried.push(handed@); }
                found = r.is_ok();
                outs.push(Some(r));
            },
            None => {
                proof { tried = tried.push(Seq::empty()); }
                outs.push(None);
            },
        }
        i = i + 1;
    }
    (outs, Ghost(tried))
}

/// The first decoded picture among the outcomes of the tags, in order, with its
/// position; `None` when no tag's picture decoded.
pub fn first_cover(outcomes: Vec<Option<Result<DynamicImage, ImageError>>>) -> (r: Option<(usize, DynamicImage)>)
    ensures
        chooses(position_of(r), outcomes@),
        r matches Some((k, img)) ==> outcomes@[k as int] == Some(Ok::<DynamicImage, ImageError>(img)),
{
    let ghost all = outcomes@;
    let mut rest = outcomes;
    let mut best: Option<(usize, DynamicImage)> = None;
    while rest.len() > 0
        invariant
            rest@ == all.take(rest@.len() as int),
            rest@.len() <= all.len(),
            match best {
                Some((k, img)) => {
                    &&& rest@.len() <= k < all.len()
                    &&& all[k as int] == Some(Ok::<DynamicImage, ImageError>(img))
                    &&& forall|j: int| rest@.len() <= j < k ==> !is_decoded(#[trigger] all[j])
                },
                None => forall|j: int| rest@.len() <= j < all.len() ==> !is_decoded(#[trigger] all[j]),
            },
        decreases rest@.len(),
    {
        let k = rest.len() - 1;
        let o = rest.pop().unwrap();
        assert(all[k as int] == o);
        assert(rest@ =~= all.take(k as int));
        match o {
            Some(Ok(img)) => {
                best = Some((k, img));
            },
            _ => {},
        }
    }
    best
}

impl App {
    /// The cover art of a track whose tags hold these pictures: the first picture
    /// of each tag, primary tag first and then every tag, is decoded until one
    /// decodes (`decode_until_decoded` over `first_pictures`); the first decoded
    /// one (`first_cover`) is returned as an RGB image, with the position of its
    /// tag in the search order.
    pub fn load_cover_art(primary: &Option<Vec<Vec<u8>>>, tags: &Vec<Vec<Vec<u8>>>) -> (c: Option<(usize, DynamicImage)>)
        ensures
            exists|outs: Seq<Option<Result<DynamicImage, ImageError>>>, tried: Seq<Seq<u8>>|
                #[trigger] decode_run(candidates(*primary, tags@), outs, tried) && chooses(position_of(c), outs),
            (forall|j: int|
                0 <= j < tag_order(*primary, tags@).len() ==> !has_picture(
                    #[trigger] tag_order(*primary, tags@)[j],
                )) ==> c is None,
    {
        let cands = first_pictures(primary, tags);
        let (outs, tried) = decode_until_decoded(&cands);
        let ghost g = outs@;
        let ghost t = tried@;
        let ghost cv = candidates(*primary, tags@);
        assert(cands@.map_values(|c: Option<&[u8]>| bytes_of(c)) =~= cv);
        let r = first_cover(outs);
        let c = match r {
            Some((k, img)) => Some((k, to_rgb_image(&img))),
            None => None,
        };
        assert(position_of(c) == position_of(r));
        assert(decode_run(cv, g, t) && chooses(position_of(c), g));
        proof {
            if forall|j: int| 0 <= j < tag_order(*primary, tags@).len() ==> !has_picture(
                #[trigger] tag_order(*primary, tags@)[j],
            ) {
                if let Some((k, _)) = c {
                    assert(cv[k as int] == first_picture_of(tag_order(*primary, tags@)[k as int]));
                    assert(!has_picture(tag_order(*primary, tags@)[k as int]));
                    assert(g[k as int] is Some);
                }
            }
        }
        c
    }
}

} // verus!
