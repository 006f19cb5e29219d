//! The compositor-allocated image chain and its checkout protocol.
//!
//! Creation is planned from the compositor's recommended stereo view
//! configuration: both eyes must report the same configuration, and each
//! image buffer holds exactly two array layers (one per eye) so a single
//! multiview render pass can target both. Per frame, exactly one image may
//! be checked out for writing at a time, through acquire, then wait, then
//! release; the checkout state machine makes illegal call orders detectable
//! instead of corrupting the chain.

use vstd::prelude::*;
use crate::errors::StartupError;

verus! {

/// One stereo view's image configuration, as the compositor recommends it.
#[derive(Clone, Copy, Debug, PartialEq, Eq, Structural)]
pub struct ViewConfig {
    pub recommended_width: u32,
    pub max_width: u32,
    pub recommended_height: u32,
    pub max_height: u32,
    pub recommended_sample_count: u32,
    pub max_sample_count: u32,
}

/// The fixed layout a swapchain is created with, and the layer span its
/// render-target views bind.
#[derive(Clone, Copy, Debug, PartialEq, Eq, Structural)]
pub struct SwapchainPlan {
    /// Image width, from the recommended view configuration.
    pub width: u32,
    /// Image height, from the recommended view configuration.
    pub height: u32,
    /// Single-sampled: the render pipeline is not set up for multisampling.
    pub sample_count: u32,
    /// Plain images, not cube maps.
    pub face_count: u32,
    /// Two array layers per image: left eye and right eye.
    pub array_size: u32,
    /// No mip chain on a render target.
    pub mip_count: u32,
    /// The render-target view spans both eye layers for multiview rendering.
    pub view_array_layer_count: u32,
}

/// Plans swapchain creation from the compositor's recommended stereo views.
///
/// Fails with `ViewMismatch` exactly when there are not two views or the two
/// views differ: multiview rendering requires identical eye dimensions. On
/// success the plan takes the recommended resolution and fixes two array
/// layers, one sample, one face and one mip level.
pub fn plan_swapchain(views: &Vec<ViewConfig>) -> (r: Result<SwapchainPlan, StartupError>)
    ensures
        r is Ok <==> (views@.len() == 2 && views@[0] == views@[1]),
        r matches Err(e) ==> e == StartupError::ViewMismatch,
        r matches Ok(p) ==> p == (SwapchainPlan {
            width: views@[0].recommended_width,
            height: views@[0].recommended_height,
            sample_count: 1,
            face_count: 1,
            array_size: 2,
            mip_count: 1,
            view_array_layer_count: 2,
        }),
{
    if views.len() != 2 {
        return Err(StartupError::ViewMismatch);
    }
    let first = views[0];
    let second = views[1];
    if first != second {
        return Err(StartupError::ViewMismatch);
    }
    Ok(
        SwapchainPlan {
            width: first.recommended_width,
            height: first.recommended_height,
            sample_count: 1,
            face_count: 1,
            array_size: 2,
            mip_count: 1,
            view_array_layer_count: 2,
        },
    )
}

/// Checkout state of the image chain: at most one image is ever out.
#[derive(Clone, Copy, Debug, PartialEq, Eq, Structural)]
pub enum ImageCheckout {
    /// No image checked out.
    Available,
    /// The compositor handed out an image index, but may still be reading
    /// the image.
    Acquired { index: u32 },
    /// The compositor signalled the acquired image safe to write.
    Writable { index: u32 },
}

/// An out-of-order checkout call, rejected instead of corrupting the chain.
#[derive(Clone, Copy, Debug, PartialEq, Eq, Structural)]
pub enum CheckoutError {
    /// Acquire while an image is already out.
    AlreadyCheckedOut,
    /// The compositor reported an image index the chain does not have.
    IndexOutOfRange,
    /// Wait without a preceding acquire.
    NothingAcquired,
    /// Release before the acquired image became writable.
    NothingWritable,
}

/// Checkout after recording an acquire of `index` on a chain of `count`
/// images: only an in-range acquire from `Available` changes the state.
pub open spec fn acquire_spec(count: u32, s: ImageCheckout, index: u32) -> ImageCheckout {
    if s is Available && index < count {
        ImageCheckout::Acquired { index }
    } else {
        s
    }
}

/// Checkout after recording that the acquired image became writable.
pub open spec fn wait_spec(s: ImageCheckout) -> ImageCheckout {
    match s {
        ImageCheckout::Acquired { index } => ImageCheckout::Writable { index },
        _ => s,
    }
}

/// Checkout after recording a release of the written image.
pub open spec fn release_spec(s: ImageCheckout) -> ImageCheckout {
    match s {
        ImageCheckout::Writable { .. } => ImageCheckout::Available,
        _ => s,
    }
}

/// Owns the image chain's checkout protocol: acquire, then wait, then
/// release, exactly once per rendered frame.
pub struct SwapchainManager {
    image_count: u32,
    state: ImageCheckout,
}

impl SwapchainManager {
    /// Number of images in the chain (compositor-determined, fixed).
    pub closed spec fn image_count(&self) -> u32 {
        self.image_count
    }

    /// Current checkout state.
    pub closed spec fn state(&self) -> ImageCheckout {
        self.state
    }

    /// A checked-out index never exceeds the chain.
    pub open spec fn wf(&self) -> bool {
        match self.state() {
            ImageCheckout::Available => true,
            ImageCheckout::Acquired { index } => index < self.image_count(),
            ImageCheckout::Writable { index } => index < self.image_count(),
        }
    }

    /// A manager for a chain of `image_count` images, nothing checked out.
    pub fn new(image_count: u32) -> (m: Self)
        ensures
            m.image_count() == image_count,
            m.state() is Available,
            m.wf(),
    {
        SwapchainManager { image_count, state: ImageCheckout::Available }
    }

    /// Records that the compositor handed out image `index`.
    ///
    /// Succeeds exactly when nothing is checked out and the index is in
    /// range; a failed call leaves the state unchanged.
    pub fn acquire(&mut self, index: u32) -> (r: Result<(), CheckoutError>)
        requires
            old(self).wf(),
        ensures
            final(self).image_count() == old(self).image_count(),
            final(self).state() == acquire_spec(old(self).image_count(), old(self).state(), index),
            final(self).wf(),
            r is Ok <==> (old(self).state() is Available && index < old(self).image_count()),
            r matches Err(e) ==> {
                &&& final(self).state() == old(self).state()
                &&& if old(self).state() is Available {
                    e == CheckoutError::IndexOutOfRange
                } else {
                    e == CheckoutError::AlreadyCheckedOut
                }
            },
    {
        match self.state {
            ImageCheckout::Available => {
                if index < self.image_count {
                    self.state = ImageCheckout::Acquired { index };
                    Ok(())
                } else {
                    Err(CheckoutError::IndexOutOfRange)
                }
            },
            _ => Err(CheckoutError::AlreadyCheckedOut),
        }
    }

    /// Records that the compositor signalled the acquired image safe to
    /// write, and returns its index.
    ///
    /// Succeeds exactly when an image is acquired and not yet writable; a
    /// failed call leaves the state unchanged.
    pub fn wait(&mut self) -> (r: Result<u32, CheckoutError>)
        requires
            old(self).wf(),
        ensures
            final(self).image_count() == old(self).image_count(),
            final(self).state() == wait_spec(old(self).state()),
            final(self).wf(),
            r is Ok <==> old(self).state() is Acquired,
            r matches Ok(i) ==> old(self).state() == (ImageCheckout::Acquired { index: i }),
            r matches Err(e) ==> {
                &&& final(self).state() == old(self).state()
                &&& e == CheckoutError::NothingAcquired
            },
    {
        match self.state {
            ImageCheckout::Acquired { index } => {
                self.state = ImageCheckout::Writable { index };
                Ok(index)
            },
            _ => Err(CheckoutError::NothingAcquired),
        }
    }

    /// Records that the written image was handed back to the compositor.
    ///
    /// Succeeds exactly when the checked-out image is writable; a failed
    /// call leaves the state unchanged.
    pub fn release(&mut self) -> (r: Result<u32, CheckoutError>)
        requires
            old(self).wf(),
        ensures
            final(self).image_count() == old(self).image_count(),
            final(self).state() == release_spec(old(self).state()),
            final(self).wf(),
            r is Ok <==> old(self).state() is Writable,
            r matches Ok(i) ==> old(self).state() == (ImageCheckout::Writable { index: i }),
            r matches Err(e) ==> {
                &&& final(self).state() == old(self).state()
                &&& e == CheckoutError::NothingWritable
            },
    {
        match self.state {
            ImageCheckout::Writable { index } => {
                self.state = ImageCheckout::Available;
                Ok(index)
            },
            _ => Err(CheckoutError::NothingWritable),
        }
    }

    /// Marks a dropped frame's checkout abandoned, whatever its state: the
    /// next frame starts fresh.
    pub fn abandon(&mut self)
        ensures
            final(self).image_count() == old(self).image_count(),
            final(self).state() is Available,
            final(self).wf(),
    {
        self.state = ImageCheckout::Available;
    }
}

/// Law: a full acquire-wait-release cycle on an idle chain returns the
/// checkout to `Available`, so the identical cycle can repeat for every
/// later frame; the same runtime-chosen indices reproduce the same states.
pub proof fn lemma_checkout_cycle(count: u32, index: u32)
    requires
        index < count,
    ensures
        release_spec(wait_spec(acquire_spec(count, ImageCheckout::Available, index)))
            == ImageCheckout::Available,
{
}

/// The checkout after one full cycle per frame, for a whole run of frames
/// whose image indices the compositor chose.
pub open spec fn run_cycles(count: u32, s: ImageCheckout, indices: Seq<u32>) -> ImageCheckout
    decreases indices.len(),
{
    if indices.len() == 0 {
        s
    } else {
        run_cycles(
            count,
            release_spec(wait_spec(acquire_spec(count, s, indices.first()))),
            indices.drop_first(),
        )
    }
}

/// Law: however many frames run their full cycles, with whatever in-range
/// indices the compositor hands out, the checkout ends `Available`: the
/// protocol is reproducible across frames.
pub proof fn lemma_cycles_reproducible(count: u32, indices: Seq<u32>)
    requires
        forall|i: int| 0 <= i < indices.len() ==> indices[i] < count,
    ensures
        run_cycles(count, ImageCheckout::Available, indices) == ImageCheckout::Available,
    decreases indices.len(),
{
    if indices.len() > 0 {
        lemma_checkout_cycle(count, indices.first());
        lemma_cycles_reproducible(count, indices.drop_first());
    }
}

} // verus!
