use vstd::prelude::*;

use crate::pipeline::{EffectRenderer, PassView, BLUR_ITERATIONS, BLUR_SCALE};
use crate::target::Size;

verus! {

/// Resizing to a non-empty surface puts the scene target at exactly that
/// size and every downsampled target at that size divided by the factor,
/// rounded down; the pipeline stays well formed, so this holds after every
/// call of any sequence of such resizes.
pub proof fn lemma_resize_sizes(s: EffectRenderer, width: u32, height: u32)
    requires
        s.wf(),
        width > 0,
        height > 0,
    ensures
        s.resized(width, height).wf(),
        s.resized(width, height).scene.size == (Size { width: width, height: height }),
        s.resized(width, height).blur_base.size == (Size {
            width: width / BLUR_SCALE,
            height: height / BLUR_SCALE,
        }),
        s.resized(width, height).pingpong.horizontal.size == (Size {
            width: width / BLUR_SCALE,
            height: height / BLUR_SCALE,
        }),
        s.resized(width, height).pingpong.vertical.size == (Size {
            width: width / BLUR_SCALE,
            height: height / BLUR_SCALE,
        }),
{
}

/// The state after a sequence of resize requests, applied in order.
pub open spec fn resize_all(s: EffectRenderer, sizes: Seq<Size>) -> EffectRenderer
    decreases sizes.len(),
{
    if sizes.len() == 0 {
        s
    } else {
        resize_all(s.resized(sizes[0].width, sizes[0].height), sizes.drop_first())
    }
}

/// After any non-empty sequence of resizes to non-empty surfaces, the
/// targets have the sizes that the last one calls for.
pub proof fn lemma_resize_sequence(s: EffectRenderer, sizes: Seq<Size>)
    requires
        s.wf(),
        sizes.len() > 0,
        forall|i: int| 0 <= i < sizes.len() ==> #[trigger] sizes[i].width > 0 && sizes[i].height > 0,
    ensures
        resize_all(s, sizes).wf(),
        resize_all(s, sizes).scene.size == sizes.last(),
        resize_all(s, sizes).blur_base.size == (Size {
            width: sizes.last().width / BLUR_SCALE,
            height: sizes.last().height / BLUR_SCALE,
        }),
        resize_all(s, sizes).pingpong.horizontal.size == resize_all(s, sizes).blur_base.size,
        resize_all(s, sizes).pingpong.vertical.size == resize_all(s, sizes).blur_base.size,
    decreases sizes.len(),
{
    assert(sizes[0].width > 0 && sizes[0].height > 0);
    lemma_resize_sizes(s, sizes[0].width, sizes[0].height);
    let rest = sizes.drop_first();
    if rest.len() > 0 {
        assert forall|i: int| 0 <= i < rest.len() implies #[trigger] rest[i].width > 0
            && rest[i].height > 0 by {
            assert(rest[i] == sizes[i + 1]);
        }
        lemma_resize_sequence(s.resized(sizes[0].width, sizes[0].height), rest);
        assert(rest.last() == sizes.last());
    } else {
        assert(sizes.last() == sizes[0]);
        assert(resize_all(s.resized(sizes[0].width, sizes[0].height), rest) == s.resized(
            sizes[0].width,
            sizes[0].height,
        ));
    }
}

/// A resize to an empty surface changes nothing.
pub proof fn lemma_resize_empty_is_noop(s: EffectRenderer, width: u32, height: u32)
    requires
        width == 0 || height == 0,
    ensures
        s.resized(width, height) == s,
{
}

/// The blur passes form a chain: the first reads the downsampled scene,
/// each later one reads what the pass before it wrote, none reads what it
/// writes, and the composite reads what the last pass wrote. With an even
/// number of passes that last pass is vertical.
pub proof fn lemma_composite_reads_last_blur(s: EffectRenderer, time: u32)
    requires
        s.wf(),
    ensures
        s.frame(time).blur.len() == BLUR_ITERATIONS,
        s.frame(time).blur[0].texture0 == s.frame(time).downsample.writes->Some_0,
        forall|k: int|
            1 <= k < BLUR_ITERATIONS ==> #[trigger] s.frame(time).blur[k].texture0
                == s.frame(time).blur[k - 1].writes->Some_0,
        forall|k: int|
            0 <= k < BLUR_ITERATIONS ==> #[trigger] s.frame(time).blur[k].writes != Some(
                s.frame(time).blur[k].texture0,
            ),
        s.frame(time).composite.texture1 == s.frame(time).blur.last().writes,
        s.frame(time).blur.last().writes == Some(s.pingpong.vertical.texture),
        s.frame(time).blur.last().uniforms == s.blur_main_program.uniforms_spec(false),
{
    let f = s.frame(time);
    assert forall|k: int| 0 <= k < BLUR_ITERATIONS implies #[trigger] f.blur[k].writes != Some(
        f.blur[k].texture0,
    ) by {
        assert(f.blur[k] == s.blur_pass(k));
    }
    assert forall|k: int| 1 <= k < BLUR_ITERATIONS implies #[trigger] f.blur[k].texture0
        == f.blur[k - 1].writes->Some_0 by {
        assert(f.blur[k] == s.blur_pass(k));
        assert(f.blur[k - 1] == s.blur_pass(k - 1));
    }
    assert(f.blur[0] == s.blur_pass(0));
    assert(f.blur.last() == s.blur_pass(BLUR_ITERATIONS - 1));
}

/// Two frames drawn from the same state differ in the time uniform alone:
/// the same downsample and blur passes, and a composite that matches in all
/// but the time value (`draw` leaves the state as it found it).
pub proof fn lemma_draw_repeatable(s: EffectRenderer, t1: u32, t2: u32)
    ensures
        s.frame(t1).downsample == s.frame(t2).downsample,
        s.frame(t1).blur == s.frame(t2).blur,
        (PassView { uniforms: Seq::empty(), ..s.frame(t1).composite }) == (PassView {
            uniforms: Seq::empty(),
            ..s.frame(t2).composite
        }),
        s.frame(t1).composite.uniforms == s.program.frame_uniforms_spec(t1)
            + s.program.uniforms_spec(),
        s.frame(t2).composite.uniforms == s.program.frame_uniforms_spec(t2)
            + s.program.uniforms_spec(),
        t1 == t2 ==> s.frame(t1) == s.frame(t2),
{
}

/// After a resize to a non-empty surface, every texture that a frame reads
/// or writes is allocated at the new size: the scene at full size, the rest
/// at the reduced size, and each viewport matches. No texture at the old
/// size is touched.
pub proof fn lemma_draw_after_resize_uses_new_sizes(
    s: EffectRenderer,
    width: u32,
    height: u32,
    time: u32,
)
    requires
        s.wf(),
        width > 0,
        height > 0,
    ensures
        ({
            let t = s.resized(width, height);
            let f = t.frame(time);
            let full = Size { width: width, height: height };
            let small = Size { width: width / BLUR_SCALE, height: height / BLUR_SCALE };
            &&& t.allocated_size(f.downsample.texture0) == Some(full)
            &&& t.allocated_size(f.downsample.writes->Some_0) == Some(small)
            &&& f.downsample.viewport == small
            &&& forall|k: int|
                0 <= k < f.blur.len() ==> {
                    &&& t.allocated_size(#[trigger] f.blur[k].texture0) == Some(small)
                    &&& t.allocated_size(f.blur[k].writes->Some_0) == Some(small)
                    &&& f.blur[k].viewport == small
                }
            &&& t.allocated_size(f.composite.texture0) == Some(full)
            &&& t.allocated_size(f.composite.texture1->Some_0) == Some(small)
            &&& f.composite.viewport == full
        }),
{
    let t = s.resized(width, height);
    let f = t.frame(time);
    lemma_resize_sizes(s, width, height);
    assert forall|k: int| 0 <= k < f.blur.len() implies t.allocated_size(
        #[trigger] f.blur[k].texture0,
    ) == Some(Size { width: width / BLUR_SCALE, height: height / BLUR_SCALE }) by {
        assert(f.blur[k] == t.blur_pass(k));
    }
}

} // verus!
