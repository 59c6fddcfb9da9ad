//! Noise textures of the mist: which ones have to exist, and their byte layout.
//!
//! Every distinct mist frequency owns one tileable noise texture. Frequencies
//! are handled here by a `u32` key that stands for the frequency under the
//! equality the renderer uses for float keys (all NaNs equal, both zeroes
//! equal); the sampling of the noise itself is floating point work done by
//! the renderer.

use vstd::prelude::*;

verus! {

/// Width and height, in texels, of every noise texture.
pub const NOISE_IMAGE_SIZE: u32 = 512;

/// Keys of `current` that `used` no longer holds, in the order of `current`.
pub open spec fn stale_keys(current: Seq<u32>, used: Seq<u32>) -> Seq<u32>
    decreases current.len(),
{
    if current.len() == 0 {
        Seq::empty()
    } else {
        let rest = stale_keys(current.drop_last(), used);
        if used.contains(current.last()) {
            rest
        } else {
            rest.push(current.last())
        }
    }
}

/// Keys of `used` that `current` does not hold, each once, in order of first use.
pub open spec fn missing_keys(used: Seq<u32>, current: Seq<u32>) -> Seq<u32>
    decreases used.len(),
{
    if used.len() == 0 {
        Seq::empty()
    } else {
        let rest = missing_keys(used.drop_last(), current);
        let key = used.last();
        if current.contains(key) || rest.contains(key) {
            rest
        } else {
            rest.push(key)
        }
    }
}

/// Bytes of an RGBA8 noise texture: texel `i` carries the mist noise `mist[i]`
/// in red, the edge noise `edge[i]` in green, zero blue and opaque alpha.
pub open spec fn noise_texels(mist: Seq<u8>, edge: Seq<u8>) -> Seq<u8>
    decreases mist.len(),
{
    if mist.len() == 0 {
        Seq::empty()
    } else {
        noise_texels(mist.drop_last(), edge.drop_last()) + seq![
            mist.last(),
            edge[mist.len() - 1],
            0u8,
            255u8,
        ]
    }
}

/// Packs the quantized noise samples of a texture into its RGBA8 bytes.
///
/// Samples are given texel by texel in row-major order (the texel at column
/// `x` and row `y` of a `NOISE_IMAGE_SIZE` wide texture is sample
/// `y * NOISE_IMAGE_SIZE + x`), and the bytes come out in the same order.
pub fn noise_image_data(mist: &Vec<u8>, edge: &Vec<u8>) -> (data: Vec<u8>)
    requires
        mist.len() == edge.len(),
    ensures
        data@ == noise_texels(mist@, edge@),
{
    let mut data: Vec<u8> = Vec::new();
    let mut i: usize = 0;
    while i < mist.len()
        invariant
            i <= mist.len(),
            mist.len() == edge.len(),
            data@ == noise_texels(mist@.take(i as int), edge@.take(i as int)),
        decreases mist.len() - i,
    {
        assert(mist@.take(i + 1).drop_last() =~= mist@.take(i as int));
        assert(edge@.take(i + 1).drop_last() =~= edge@.take(i as int));
        data.push(mist[i]);
        data.push(edge[i]);
        data.push(0u8);
        data.push(255u8);
        assert(data@ =~= noise_texels(mist@.take(i + 1), edge@.take(i + 1)));
        i = i + 1;
    }
    assert(mist@.take(mist.len() as int) =~= mist@);
    assert(edge@.take(edge.len() as int) =~= edge@);
    data
}

/// What a frame has to do to the map from frequency keys to noise textures.
pub struct NoiseMapUpdate {
    /// Keys whose texture is no longer used by any mist: to be dropped.
    pub stale: Vec<u32>,
    /// Keys used by some mist that have no texture yet: one texture to be generated for each.
    pub missing: Vec<u32>,
}

/// Whether `key` occurs in `keys`.
pub fn contains_key(keys: &Vec<u32>, key: u32) -> (found: bool)
    ensures
        found == keys@.contains(key),
{
    let mut i: usize = 0;
    while i < keys.len()
        invariant
            i <= keys.len(),
            forall|j: int| 0 <= j < i ==> keys@[j] != key,
        decreases keys.len() - i,
    {
        if keys[i] == key {
            return true;
        }
        i = i + 1;
    }
    false
}

/// Plans the update of the noise texture map for one frame.
///
/// `current` holds the keys that have a texture, `used` the key of every mist
/// in the world (a key may occur more than once). Textures of keys no mist uses
/// any more are dropped; keys in use without a texture get one; the textures
/// of keys still in use are kept as they are.
pub fn plan_noise_map_update(current: &Vec<u32>, used: &Vec<u32>) -> (update: NoiseMapUpdate)
    ensures
        update.stale@ == stale_keys(current@, used@),
        update.missing@ == missing_keys(used@, current@),
{
    let mut stale: Vec<u32> = Vec::new();
    let mut i: usize = 0;
    while i < current.len()
        invariant
            i <= current.len(),
            stale@ == stale_keys(current@.take(i as int), used@),
        decreases current.len() - i,
    {
        let key = current[i];
        assert(current@.take(i + 1).drop_last() =~= current@.take(i as int));
        if !contains_key(used, key) {
            stale.push(key);
        }
        i = i + 1;
    }
    assert(current@.take(current.len() as int) =~= current@);

    let mut missing: Vec<u32> = Vec::new();
    let mut j: usize = 0;
    while j < used.len()
        invariant
            j <= used.len(),
            missing@ == missing_keys(used@.take(j as int), current@),
        decreases used.len() - j,
    {
        let key = used[j];
        assert(used@.take(j + 1).drop_last() =~= used@.take(j as int));
        if !contains_key(current, key) && !contains_key(&missing, key) {
            missing.push(key);
        }
        j = j + 1;
    }
    assert(used@.take(used.len() as int) =~= used@);

    NoiseMapUpdate { stale, missing }
}

proof fn lemma_stale_keys_members(current: Seq<u32>, used: Seq<u32>)
    ensures
        forall|key: u32|
            #[trigger] stale_keys(current, used).contains(key) <==> (current.contains(key)
                && !used.contains(key)),
        current.no_duplicates() ==> stale_keys(current, used).no_duplicates(),
    decreases current.len(),
{
    if current.len() > 0 {
        let init = current.drop_last();
        lemma_stale_keys_members(init, used);
        assert forall|key: u32| current.contains(key) <==> (init.contains(key) || key
            == current.last()) by {
            if current.contains(key) {
                let i = choose|i: int| 0 <= i < current.len() && current[i] == key;
                if i < current.len() - 1 {
                    assert(init[i] == key);
                }
            }
            if init.contains(key) {
                let i = choose|i: int| 0 <= i < init.len() && init[i] == key;
                assert(current[i] == key);
            }
            if key == current.last() {
                assert(current[current.len() - 1] == key);
            }
        }
        let rest = stale_keys(init, used);
        assert forall|key: u32| #[trigger] stale_keys(current, used).contains(key) <==> (
        rest.contains(key) || (!used.contains(current.last()) && key == current.last())) by {
            if !used.contains(current.last()) {
                lemma_push_contains(rest, current.last(), key);
            }
        }
        if current.no_duplicates() {
            assert(init.no_duplicates());
            assert(!init.contains(current.last())) by {
                if init.contains(current.last()) {
                    let i = choose|i: int| 0 <= i < init.len() && init[i] == current.last();
                    assert(current[i] == current[current.len() - 1]);
                }
            }
            if !used.contains(current.last()) {
                lemma_push_no_duplicates(rest, current.last());
            }
        }
    }
}

proof fn lemma_missing_keys_members(used: Seq<u32>, current: Seq<u32>)
    ensures
        forall|key: u32|
            #[trigger] missing_keys(used, current).contains(key) <==> (used.contains(key)
                && !current.contains(key)),
        missing_keys(used, current).no_duplicates(),
    decreases used.len(),
{
    if used.len() > 0 {
        let init = used.drop_last();
        lemma_missing_keys_members(init, current);
        assert forall|key: u32| used.contains(key) <==> (init.contains(key) || key
            == used.last()) by {
            if used.contains(key) {
                let i = choose|i: int| 0 <= i < used.len() && used[i] == key;
                if i < used.len() - 1 {
                    assert(init[i] == key);
                }
            }
            if init.contains(key) {
                let i = choose|i: int| 0 <= i < init.len() && init[i] == key;
                assert(used[i] == key);
            }
            if key == used.last() {
                assert(used[used.len() - 1] == key);
            }
        }
        let rest = missing_keys(init, current);
        let last = used.last();
        assert forall|key: u32| #[trigger] missing_keys(used, current).contains(key) <==> (
        rest.contains(key) || (!current.contains(last) && !rest.contains(last) && key == last)) by {
            if !current.contains(last) && !rest.contains(last) {
                lemma_push_contains(rest, last, key);
            }
        }
    }
}

proof fn lemma_push_no_duplicates(s: Seq<u32>, x: u32)
    requires
        s.no_duplicates(),
        !s.contains(x),
    ensures
        s.push(x).no_duplicates(),
{
    assert forall|i: int, j: int|
        0 <= i < s.push(x).len() && 0 <= j < s.push(x).len() && i != j implies s.push(x)[i]
        != s.push(x)[j] by {
        if i < s.len() && j == s.len() {
            assert(s[i] != x);
        }
        if j < s.len() && i == s.len() {
            assert(s[j] != x);
        }
    }
}

proof fn lemma_push_contains(s: Seq<u32>, x: u32, key: u32)
    ensures
        s.push(x).contains(key) <==> (s.contains(key) || key == x),
{
    if s.push(x).contains(key) {
        let i = choose|i: int| 0 <= i < s.push(x).len() && s.push(x)[i] == key;
        if i < s.len() {
            assert(s[i] == key);
        }
    }
    if s.contains(key) {
        let i = choose|i: int| 0 <= i < s.len() && s[i] == key;
        assert(s.push(x)[i] == key);
    }
    if key == x {
        assert(s.push(x)[s.len() as int] == key);
    }
}

/// The texture bytes hold four bytes per texel, and texel `i` is
/// (`mist[i]`, `edge[i]`, 0, 255).
pub proof fn noise_texels_layout(mist: Seq<u8>, edge: Seq<u8>, i: int)
    requires
        mist.len() == edge.len(),
        0 <= i < mist.len(),
    ensures
        noise_texels(mist, edge).len() == 4 * mist.len(),
        noise_texels(mist, edge)[4 * i] == mist[i],
        noise_texels(mist, edge)[4 * i + 1] == edge[i],
        noise_texels(mist, edge)[4 * i + 2] == 0,
        noise_texels(mist, edge)[4 * i + 3] == 255,
    decreases mist.len(),
{
    let n = mist.len();
    lemma_noise_texels_len(mist.drop_last(), edge.drop_last());
    if i < n - 1 {
        noise_texels_layout(mist.drop_last(), edge.drop_last(), i);
    }
}

proof fn lemma_noise_texels_len(mist: Seq<u8>, edge: Seq<u8>)
    requires
        mist.len() == edge.len(),
    ensures
        noise_texels(mist, edge).len() == 4 * mist.len(),
    decreases mist.len(),
{
    if mist.len() > 0 {
        lemma_noise_texels_len(mist.drop_last(), edge.drop_last());
    }
}

/// After a planned update the map holds a texture for exactly the keys in use:
/// the keys it held, minus the stale ones, plus the missing ones.
pub proof fn noise_map_update_yields_used_keys(current: Seq<u32>, used: Seq<u32>)
    ensures
        current.to_set().difference(stale_keys(current, used).to_set()).union(
            missing_keys(used, current).to_set(),
        ) == used.to_set(),
{
    lemma_stale_keys_members(current, used);
    lemma_missing_keys_members(used, current);
    assert(current.to_set().difference(stale_keys(current, used).to_set()).union(
        missing_keys(used, current).to_set(),
    ) =~= used.to_set());
}

/// A key that has a texture and is still in use is neither dropped nor
/// regenerated: its texture is kept as it is.
pub proof fn noise_map_update_keeps_textures_in_use(current: Seq<u32>, used: Seq<u32>, key: u32)
    requires
        current.contains(key),
        used.contains(key),
    ensures
        !stale_keys(current, used).contains(key),
        !missing_keys(used, current).contains(key),
{
    lemma_stale_keys_members(current, used);
    lemma_missing_keys_members(used, current);
}

/// Each missing key is generated once, however many mists use it; and each
/// stale key is dropped once.
pub proof fn noise_map_update_has_no_repeats(current: Seq<u32>, used: Seq<u32>)
    requires
        current.no_duplicates(),
    ensures
        stale_keys(current, used).no_duplicates(),
        missing_keys(used, current).no_duplicates(),
{
    lemma_stale_keys_members(current, used);
    lemma_missing_keys_members(used, current);
}

/// When the textures already match the keys in use, an update does nothing:
/// running it every frame costs no texture generation while the mists stay.
pub proof fn noise_map_update_is_idle_when_in_sync(current: Seq<u32>, used: Seq<u32>)
    requires
        current.to_set() == used.to_set(),
    ensures
        stale_keys(current, used).len() == 0,
        missing_keys(used, current).len() == 0,
{
    lemma_stale_keys_members(current, used);
    lemma_missing_keys_members(used, current);
    let stale = stale_keys(current, used);
    let missing = missing_keys(used, current);
    if stale.len() > 0 {
        let key = stale[0];
        assert(stale.contains(key));
        assert(current.to_set().contains(key));
    }
    if missing.len() > 0 {
        let key = missing[0];
        assert(missing.contains(key));
        assert(used.to_set().contains(key));
    }
}

} // verus!
