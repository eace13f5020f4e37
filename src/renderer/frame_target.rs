use vstd::prelude::*;

verus! {

/// The size of a surface or of an image, in pixels.
#[derive(Clone, Copy, Debug, PartialEq, Eq, Structural)]
pub struct Extent {
    pub width: u32,
    pub height: u32,
}

/// Whether nothing can be drawn at this size.
pub open spec fn degenerate(e: Extent) -> bool {
    e.width == 0 || e.height == 0
}

impl Extent {
    pub fn new(width: u32, height: u32) -> (r: Extent)
        ensures
            r.width == width,
            r.height == height,
    {
        Extent { width, height }
    }

    /// Whether the width or the height is zero.
    pub fn is_degenerate(&self) -> (r: bool)
        ensures
            r == degenerate(*self),
    {
        self.width == 0 || self.height == 0
    }
}

/// The region of the framebuffer that a frame draws to. Its origin is the
/// top-left corner; its depth range is always the whole one.
#[derive(Clone, Copy, Debug, PartialEq, Eq, Structural)]
pub struct Viewport {
    pub width: u32,
    pub height: u32,
}

/// The viewport that covers an image of extent `e`.
pub open spec fn viewport_of(e: Extent) -> Viewport {
    Viewport { width: e.width, height: e.height }
}

/// Sets `viewport` to cover the images of a freshly built chain, whose
/// extent is `image_extent`.
pub fn window_size_dependent_setup(image_extent: Extent, viewport: &mut Viewport)
    ensures
        *final(viewport) == viewport_of(image_extent),
{
    viewport.width = image_extent.width;
    viewport.height = image_extent.height;
}

/// A presentation chain and its images, each named by the handle under
/// which the host keeps it, with whether the chain still suits the surface.
#[derive(Debug)]
pub struct FrameTarget {
    pub chain: u64,
    pub images: Vec<u64>,
    pub image_extent: Extent,
    pub optimal: bool,
}

/// The mathematical value of a [`FrameTarget`].
pub struct TargetView {
    pub chain: u64,
    pub images: Seq<u64>,
    pub image_extent: Extent,
    pub optimal: bool,
}

impl View for FrameTarget {
    type V = TargetView;

    open spec fn view(&self) -> TargetView {
        TargetView {
            chain: self.chain,
            images: self.images@,
            image_extent: self.image_extent,
            optimal: self.optimal,
        }
    }
}

/// A chain always has an image: the viewport is taken from the first one.
pub open spec fn target_wf(t: TargetView) -> bool {
    t.images.len() > 0
}

/// `t` marked as no longer suiting its surface.
pub open spec fn stale(t: TargetView) -> TargetView {
    TargetView { optimal: false, ..t }
}

/// What the host's attempt to recreate the presentation chain came to.
#[derive(Debug)]
pub enum ChainResult {
    /// A new chain with these images, all of extent `image_extent`.
    Created { chain: u64, images: Vec<u64>, image_extent: Extent },
    /// The surface does not take the extent asked for (it is being resized).
    ExtentNotSupported,
    /// Any other failure.
    Failed,
}

/// The mathematical value of a [`ChainResult`].
pub enum ChainResultView {
    Created { chain: u64, images: Seq<u64>, image_extent: Extent },
    ExtentNotSupported,
    Failed,
}

impl View for ChainResult {
    type V = ChainResultView;

    open spec fn view(&self) -> ChainResultView {
        match self {
            ChainResult::Created { chain, images, image_extent } => ChainResultView::Created {
                chain: *chain,
                images: images@,
                image_extent: *image_extent,
            },
            ChainResult::ExtentNotSupported => ChainResultView::ExtentNotSupported,
            ChainResult::Failed => ChainResultView::Failed,
        }
    }
}

/// Why a chain could not be rebuilt.
#[derive(Clone, Copy, Debug, PartialEq, Eq, Structural)]
pub enum RebuildError {
    /// The frame is skipped; the rebuild is tried again on the next one.
    Retry,
    /// The session cannot go on.
    Fatal,
}

/// The chain that replaces one whose recreation came to `result`.
pub open spec fn rebuilt(result: ChainResultView) -> Result<TargetView, RebuildError> {
    match result {
        ChainResultView::Created { chain, images, image_extent } => if images.len() == 0 {
            Err(RebuildError::Fatal)
        } else {
            Ok(TargetView { chain, images, image_extent, optimal: true })
        },
        ChainResultView::ExtentNotSupported => Err(RebuildError::Retry),
        ChainResultView::Failed => Err(RebuildError::Fatal),
    }
}

impl FrameTarget {
    /// A chain that suits its surface.
    pub fn new(chain: u64, images: Vec<u64>, image_extent: Extent) -> (r: FrameTarget)
        ensures
            r@ == (TargetView { chain, images: images@, image_extent, optimal: true }),
    {
        FrameTarget { chain, images, image_extent, optimal: true }
    }

    /// Marks the chain as no longer suiting its surface, so that it is
    /// rebuilt before the next image is acquired.
    pub fn mark_stale(&mut self)
        ensures
            final(self)@ == stale(old(self)@),
    {
        self.optimal = false;
    }

    /// The chain that replaces this one, given what recreating it against
    /// the surface's new extent came to: a chain that suits the surface, or
    /// `Retry` when the surface did not take the extent, or `Fatal`.
    pub fn rebuild(&self, result: ChainResult) -> (r: Result<FrameTarget, RebuildError>)
        ensures
            match (r, rebuilt(result@)) {
                (Ok(t), Ok(v)) => t@ == v,
                (Err(e), Err(f)) => e == f,
                _ => false,
            },
    {
        match result {
            ChainResult::Created { chain, images, image_extent } => {
                if images.len() == 0 {
                    Err(RebuildError::Fatal)
                } else {
                    Ok(FrameTarget::new(chain, images, image_extent))
                }
            },
            ChainResult::ExtentNotSupported => Err(RebuildError::Retry),
            ChainResult::Failed => Err(RebuildError::Fatal),
        }
    }

    /// The number of images in the chain.
    pub fn image_count(&self) -> (r: usize)
        ensures
            r == self@.images.len(),
    {
        self.images.len()
    }
}

/// Marking a chain stale twice does what marking it once does.
pub proof fn lemma_mark_stale_idempotent(t: TargetView)
    ensures
        stale(stale(t)) == stale(t),
{
}

} // verus!
