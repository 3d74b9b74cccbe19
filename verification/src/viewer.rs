//! The viewer handle: the owning aggregate of one window and one image
//! resource, both obtained from a display backend at construction and
//! released by `teardown` in fixed order, image strictly before window.
//! The backend is a collaborator behind the [`DisplayBackend`] trait; every
//! primitive call the viewer makes is visible in the backend's call log, so
//! the lifecycle ordering is part of each operation's contract.

use vstd::prelude::*;

use crate::event::{Event, RawEvent, spec_translate, translate};
use crate::pixels::PixelOp;
use crate::pixels;

verus! {

/// One primitive call into the display backend, as the backend's call log
/// records it.
#[derive(Clone, Copy, Debug, PartialEq, Eq, Structural)]
pub enum BackendCall {
    CreateWindow { width: u16, height: u16 },
    CreateImage { window: u64, width: u16, height: u16 },
    ResizeImage { window: u64, image: u64, width: u16, height: u16 },
    ShowImage { window: u64, image: u64 },
    WaitForEvent { window: u64 },
    DestroyImage { image: u64 },
    DestroyWindow { window: u64 },
}

/// The display backend: the native windowing collaborator that owns window
/// and image resources and delivers raw events. Every primitive operation
/// appends exactly one record to the backend's call log — the log is how a
/// caller (and the teardown-ordering law) sees what the viewer asked of the
/// backend and in what order. Nothing is promised about the raw event a
/// `wait_for_event` call yields: the translator is verified for every value.
pub trait DisplayBackend: Sized {
    /// The log of every primitive call made so far, oldest first.
    spec fn calls(&self) -> Seq<BackendCall>;

    /// Creates a native window of the given size and returns its handle.
    fn create_window(&mut self, width: u16, height: u16) -> (window: u64)
        ensures
            final(self).calls() == old(self).calls().push(
                BackendCall::CreateWindow { width, height },
            ),
    ;

    /// Creates an image resource bound to `window` and returns its handle.
    fn create_image(&mut self, window: u64, width: u16, height: u16) -> (image: u64)
        ensures
            final(self).calls() == old(self).calls().push(
                BackendCall::CreateImage { window, width, height },
            ),
    ;

    /// Resizes the image resource bound to `window`.
    fn resize_image(&mut self, window: u64, image: u64, width: u16, height: u16)
        ensures
            final(self).calls() == old(self).calls().push(
                BackendCall::ResizeImage { window, image, width, height },
            ),
    ;

    /// Blits the image's current pixel buffer to the window.
    fn show_image(&mut self, window: u64, image: u64)
        ensures
            final(self).calls() == old(self).calls().push(
                BackendCall::ShowImage { window, image },
            ),
    ;

    /// Blocks until the backend delivers one raw event record for `window`,
    /// and hands over a snapshot of its fields; the backend releases the
    /// record itself exactly once before returning.
    fn wait_for_event(&mut self, window: u64) -> (raw: RawEvent)
        ensures
            final(self).calls() == old(self).calls().push(
                BackendCall::WaitForEvent { window },
            ),
    ;

    /// Destroys an image resource.
    fn destroy_image(&mut self, image: u64)
        ensures
            final(self).calls() == old(self).calls().push(
                BackendCall::DestroyImage { image },
            ),
    ;

    /// Destroys a native window.
    fn destroy_window(&mut self, window: u64)
        ensures
            final(self).calls() == old(self).calls().push(
                BackendCall::DestroyWindow { window },
            ),
    ;
}

/// The viewer handle: owns exactly one window and one image resource from
/// construction until `teardown` consumes the handle. The pixel buffer bound
/// to the image is a flat row-major `u32` buffer of `width * height` slots.
#[verifier::reject_recursive_types(B)]
pub struct XcbShow<B: DisplayBackend> {
    backend: B,
    window: u64,
    image: u64,
    width: u16,
    height: u16,
    pixels: Vec<u32>,
}

impl<B: DisplayBackend> XcbShow<B> {
    /// The backend's call log, as this handle's operations have grown it.
    pub closed spec fn backend_calls(&self) -> Seq<BackendCall> {
        self.backend.calls()
    }

    /// The handle of the owned window resource.
    pub closed spec fn window_id(&self) -> u64 {
        self.window
    }

    /// The handle of the owned image resource.
    pub closed spec fn image_id(&self) -> u64 {
        self.image
    }

    /// The image's row width in pixels.
    pub closed spec fn img_width(&self) -> u16 {
        self.width
    }

    /// The image's height in pixels.
    pub closed spec fn img_height(&self) -> u16 {
        self.height
    }

    /// The image's pixel buffer, row-major.
    pub closed spec fn buffer(&self) -> Seq<u32> {
        self.pixels@
    }

    /// Well-formedness: the buffer holds exactly one slot per pixel of the
    /// image geometry.
    pub closed spec fn wf(&self) -> bool {
        self.pixels@.len() == self.width as int * self.height as int
    }

    /// Constructs a viewer: the backend creates a window, then an image
    /// bound to it; the pixel buffer starts with every slot cleared.
    pub fn new(backend: B, width: u16, height: u16) -> (viewer: XcbShow<B>)
        ensures
            viewer.wf(),
            viewer.img_width() == width,
            viewer.img_height() == height,
            viewer.buffer().len() == width as int * height as int,
            forall|n: int| 0 <= n < viewer.buffer().len() ==> viewer.buffer()[n] == 0u32,
            viewer.backend_calls() == backend.calls().push(
                BackendCall::CreateWindow { width, height },
            ).push(
                BackendCall::CreateImage { window: viewer.window_id(), width, height },
            ),
    {
        let mut backend = backend;
        let window = backend.create_window(width, height);
        let image = backend.create_image(window, width, height);
        proof {
            assert(width as int * height as int <= 0xffff * 0xffff) by (nonlinear_arith)
                requires
                    width <= 0xffff,
                    height <= 0xffff,
            ;
        }
        let count: usize = (width as usize) * (height as usize);
        let pixels = cleared_pixels(count);
        XcbShow { backend, window, image, width, height, pixels }
    }

    /// Resizes the image resource through the backend and reallocates the
    /// buffer for the new geometry, every slot cleared.
    pub fn resize_image(&mut self, width: u16, height: u16)
        requires
            old(self).wf(),
        ensures
            final(self).wf(),
            final(self).img_width() == width,
            final(self).img_height() == height,
            final(self).window_id() == old(self).window_id(),
            final(self).image_id() == old(self).image_id(),
            final(self).buffer().len() == width as int * height as int,
            forall|n: int|
                0 <= n < final(self).buffer().len() ==> final(self).buffer()[n] == 0u32,
            final(self).backend_calls() == old(self).backend_calls().push(
                BackendCall::ResizeImage {
                    window: old(self).window_id(),
                    image: old(self).image_id(),
                    width,
                    height,
                },
            ),
    {
        self.backend.resize_image(self.window, self.image, width, height);
        proof {
            assert(width as int * height as int <= 0xffff * 0xffff) by (nonlinear_arith)
                requires
                    width <= 0xffff,
                    height <= 0xffff,
            ;
        }
        let count: usize = (width as usize) * (height as usize);
        self.width = width;
        self.height = height;
        self.pixels = cleared_pixels(count);
    }

    /// Blits the current pixel buffer to the window.
    pub fn show_image(&mut self)
        requires
            old(self).wf(),
        ensures
            final(self).wf(),
            final(self).img_width() == old(self).img_width(),
            final(self).img_height() == old(self).img_height(),
            final(self).window_id() == old(self).window_id(),
            final(self).image_id() == old(self).image_id(),
            final(self).buffer() == old(self).buffer(),
            final(self).backend_calls() == old(self).backend_calls().push(
                BackendCall::ShowImage {
                    window: old(self).window_id(),
                    image: old(self).image_id(),
                },
            ),
    {
        self.backend.show_image(self.window, self.image);
    }

    /// Applies `op` to every pixel of the buffer, in parallel; the call
    /// blocks until every slot is processed. The backend is not involved:
    /// only the pixel buffer changes.
    pub fn modify_image<Op: PixelOp + Sync>(&mut self, op: Op)
        requires
            old(self).wf(),
            old(self).img_width() > 0,
        ensures
            final(self).wf(),
            final(self).img_width() == old(self).img_width(),
            final(self).img_height() == old(self).img_height(),
            final(self).window_id() == old(self).window_id(),
            final(self).image_id() == old(self).image_id(),
            final(self).backend_calls() == old(self).backend_calls(),
            final(self).buffer().len() == old(self).buffer().len(),
            forall|n: int|
                0 <= n < old(self).buffer().len() ==> final(self).buffer()[n] == op.op_spec(
                    n / old(self).img_width() as int,
                    n % old(self).img_width() as int,
                    old(self).buffer()[n],
                ),
    {
        let width = self.width as usize;
        pixels::mutate(&mut self.pixels, width, &op);
    }

    /// Blocks until the backend delivers one raw event, then translates it.
    /// Whatever record came back, the result is its exact translation.
    pub fn events(&mut self) -> (ev: Event)
        requires
            old(self).wf(),
        ensures
            final(self).wf(),
            final(self).img_width() == old(self).img_width(),
            final(self).img_height() == old(self).img_height(),
            final(self).window_id() == old(self).window_id(),
            final(self).image_id() == old(self).image_id(),
            final(self).buffer() == old(self).buffer(),
            final(self).backend_calls() == old(self).backend_calls().push(
                BackendCall::WaitForEvent { window: old(self).window_id() },
            ),
            exists|raw: RawEvent| ev == spec_translate(raw),
    {
        let raw = self.backend.wait_for_event(self.window);
        let ev = translate(raw);
        proof {
            assert(ev == spec_translate(raw));
        }
        ev
    }

    /// The image's row width in pixels.
    pub fn width(&self) -> (width: u16)
        ensures
            width == self.img_width(),
    {
        self.width
    }

    /// The image's height in pixels.
    pub fn height(&self) -> (height: u16)
        ensures
            height == self.img_height(),
    {
        self.height
    }

    /// Read access to the image's pixel buffer, row-major.
    pub fn pixels(&self) -> (pixels: &Vec<u32>)
        ensures
            pixels@ == self.buffer(),
    {
        &self.pixels
    }

    /// Tears the handle down, consuming it: the image resource is destroyed
    /// strictly before the window resource, each exactly once. The backend
    /// is handed back so its log outlives the handle.
    pub fn teardown(self) -> (backend: B)
        ensures
            backend.calls() == self.backend_calls().push(
                BackendCall::DestroyImage { image: self.image_id() },
            ).push(
                BackendCall::DestroyWindow { window: self.window_id() },
            ),
    {
        let XcbShow { mut backend, window, image, width: _, height: _, pixels: _ } = self;
        backend.destroy_image(image);
        backend.destroy_window(window);
        backend
    }
}

/// A buffer of `count` cleared pixels.
fn cleared_pixels(count: usize) -> (pixels: Vec<u32>)
    ensures
        pixels@.len() == count,
        forall|n: int| 0 <= n < count ==> pixels@[n] == 0u32,
{
    let mut pixels: Vec<u32> = Vec::new();
    let mut i: usize = 0;
    while i < count
        invariant
            i <= count,
            pixels@.len() == i,
            forall|n: int| 0 <= n < i ==> pixels@[n] == 0u32,
        decreases count - i,
    {
        pixels.push(0);
        i = i + 1;
    }
    pixels
}

/// How many destroy-image calls a log holds.
pub open spec fn count_destroy_image(log: Seq<BackendCall>) -> nat
    decreases log.len(),
{
    if log.len() == 0 {
        0
    } else {
        count_destroy_image(log.drop_last()) + if log.last() is DestroyImage {
            1nat
        } else {
            0nat
        }
    }
}

/// How many destroy-window calls a log holds.
pub open spec fn count_destroy_window(log: Seq<BackendCall>) -> nat
    decreases log.len(),
{
    if log.len() == 0 {
        0
    } else {
        count_destroy_window(log.drop_last()) + if log.last() is DestroyWindow {
            1nat
        } else {
            0nat
        }
    }
}

/// Appending one call raises each destroy count by one exactly when the call
/// is the matching destroy.
pub proof fn lemma_destroy_counts_push(log: Seq<BackendCall>, call: BackendCall)
    ensures
        count_destroy_image(log.push(call)) == count_destroy_image(log) + if call is DestroyImage {
            1nat
        } else {
            0nat
        },
        count_destroy_window(log.push(call)) == count_destroy_window(log)
            + if call is DestroyWindow {
            1nat
        } else {
            0nat
        },
{
    assert(log.push(call).drop_last() =~= log);
    assert(log.push(call).last() == call);
}

/// A log with a zero destroy-image count holds no destroy-image call, and
/// likewise for destroy-window.
pub proof fn lemma_zero_destroy_counts(log: Seq<BackendCall>)
    ensures
        count_destroy_image(log) == 0 ==> forall|i: int|
            0 <= i < log.len() ==> !(log[i] is DestroyImage),
        count_destroy_window(log) == 0 ==> forall|i: int|
            0 <= i < log.len() ==> !(log[i] is DestroyWindow),
    decreases log.len(),
{
    if log.len() > 0 {
        lemma_zero_destroy_counts(log.drop_last());
        if count_destroy_image(log) == 0 {
            assert forall|i: int| 0 <= i < log.len() implies !(log[i] is DestroyImage) by {
                if i < log.len() - 1 {
                    assert(log.drop_last()[i] == log[i]);
                } else {
                    assert(log[i] == log.last());
                }
            }
        }
        if count_destroy_window(log) == 0 {
            assert forall|i: int| 0 <= i < log.len() implies !(log[i] is DestroyWindow) by {
                if i < log.len() - 1 {
                    assert(log.drop_last()[i] == log[i]);
                } else {
                    assert(log[i] == log.last());
                }
            }
        }
    }
}

/// Law: over a lifecycle whose calls before teardown destroyed nothing —
/// which holds of every lifecycle driven through the viewer, since every
/// other operation appends only non-destroy calls — the final log destroys
/// the image exactly once and the window exactly once, and every
/// destroy-image call stands strictly before every destroy-window call.
/// The premise on `post` is exactly what `XcbShow::teardown` ensures.
pub proof fn lemma_teardown_ordering(
    pre: Seq<BackendCall>,
    post: Seq<BackendCall>,
    image: u64,
    window: u64,
)
    requires
        count_destroy_image(pre) == 0,
        count_destroy_window(pre) == 0,
        post == pre.push(BackendCall::DestroyImage { image }).push(
            BackendCall::DestroyWindow { window },
        ),
    ensures
        count_destroy_image(post) == 1,
        count_destroy_window(post) == 1,
        forall|i: int, j: int|
            0 <= i < post.len() && 0 <= j < post.len() && post[i] is DestroyImage
                && post[j] is DestroyWindow ==> i < j,
{
    let mid = pre.push(BackendCall::DestroyImage { image });
    lemma_destroy_counts_push(pre, BackendCall::DestroyImage { image });
    lemma_destroy_counts_push(mid, BackendCall::DestroyWindow { window });
    lemma_zero_destroy_counts(pre);
    assert forall|i: int, j: int|
        0 <= i < post.len() && 0 <= j < post.len() && post[i] is DestroyImage
            && post[j] is DestroyWindow implies i < j by {
        assert(post.len() == pre.len() + 2);
        if i < pre.len() {
            assert(post[i] == pre[i]);
        }
        if j < pre.len() {
            assert(post[j] == pre[j]);
        }
        assert(post[pre.len() as int] == BackendCall::DestroyImage { image });
        assert(post[pre.len() + 1int] == BackendCall::DestroyWindow { window });
    }
}

/// A scripted display backend: it records every primitive call in order and
/// serves raw events from a queue, so a whole lifecycle can be driven and
/// observed without a native windowing connection. Resource handles are
/// drawn from a counter; a wait with an empty queue yields a record of kind
/// zero, which translates to a no-op.
pub struct MockBackend {
    log: Vec<BackendCall>,
    queued: Vec<RawEvent>,
    next_id: u64,
}

impl MockBackend {
    /// A fresh backend with an empty log and no queued events.
    pub fn new() -> (backend: MockBackend)
        ensures
            backend.calls() == Seq::<BackendCall>::empty(),
            backend.pending() == Seq::<RawEvent>::empty(),
    {
        MockBackend { log: Vec::new(), queued: Vec::new(), next_id: 1 }
    }

    /// The raw events waiting to be served, oldest first.
    pub closed spec fn pending(&self) -> Seq<RawEvent> {
        self.queued@
    }

    /// Appends a raw event to the queue this backend serves from.
    pub fn queue_event(&mut self, raw: RawEvent)
        ensures
            final(self).pending() == old(self).pending().push(raw),
            final(self).calls() == old(self).calls(),
    {
        self.queued.push(raw);
    }

    /// The call log, for a test or caller to inspect after a lifecycle.
    pub fn log(&self) -> (log: &Vec<BackendCall>)
        ensures
            log@ == self.calls(),
    {
        &self.log
    }

    fn fresh_id(&mut self) -> (id: u64)
        ensures
            final(self).log@ == old(self).log@,
            final(self).queued@ == old(self).queued@,
    {
        let id = self.next_id;
        self.next_id = self.next_id.wrapping_add(1);
        id
    }
}

impl DisplayBackend for MockBackend {
    closed spec fn calls(&self) -> Seq<BackendCall> {
        self.log@
    }

    fn create_window(&mut self, width: u16, height: u16) -> (window: u64) {
        self.log.push(BackendCall::CreateWindow { width, height });
        self.fresh_id()
    }

    fn create_image(&mut self, window: u64, width: u16, height: u16) -> (image: u64) {
        self.log.push(BackendCall::CreateImage { window, width, height });
        self.fresh_id()
    }

    fn resize_image(&mut self, window: u64, image: u64, width: u16, height: u16) {
        self.log.push(BackendCall::ResizeImage { window, image, width, height });
    }

    fn show_image(&mut self, window: u64, image: u64) {
        self.log.push(BackendCall::ShowImage { window, image });
    }

    fn wait_for_event(&mut self, window: u64) -> (raw: RawEvent)
        ensures
            old(self).pending().len() > 0 ==> raw == old(self).pending()[0]
                && final(self).pending() == old(self).pending().drop_first(),
            old(self).pending().len() == 0 ==> final(self).pending() == old(self).pending()
                && raw == (RawEvent { kind: 0, width: 0, height: 0, x: 0, y: 0, state: 0, detail: 0 }),
    {
        self.log.push(BackendCall::WaitForEvent { window });
        if self.queued.len() > 0 {
            let raw = self.queued.remove(0);
            raw
        } else {
            RawEvent { kind: 0, width: 0, height: 0, x: 0, y: 0, state: 0, detail: 0 }
        }
    }

    fn destroy_image(&mut self, image: u64) {
        self.log.push(BackendCall::DestroyImage { image });
    }

    fn destroy_window(&mut self, window: u64) {
        self.log.push(BackendCall::DestroyWindow { window });
    }
}

} // verus!
