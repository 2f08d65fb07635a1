//! Renderer backend abstraction: a closed set of interchangeable
//! implementations of one four-operation contract (`start_frame`,
//! `swap_buffers`, `read_scanline`, `skip_scanline`), selected at
//! configuration time and swappable at runtime — but only between frames, and
//! only after the outgoing backend is fully stopped and joined.

use vstd::prelude::*;

verus! {

/// How 2D composition runs.
#[derive(Clone, Copy, PartialEq, Eq, Structural, Debug)]
pub enum Renderer2dKind {
    /// Software, synchronously on the timing thread.
    SoftSync,
    /// Software, on its own thread in scanline lockstep.
    SoftLockstepScanlines,
    /// GPU-accelerated, on its own thread in scanline lockstep.
    WgpuLockstepScanlines,
}

/// How 3D rasterization runs.
#[derive(Clone, Copy, PartialEq, Eq, Structural, Debug)]
pub enum Renderer3dKind {
    /// The software rasterizer.
    Soft,
    /// The GPU-accelerated rasterizer.
    Wgpu,
}

/// The closed set of backend implementations of the four-operation contract.
#[derive(Clone, Copy, PartialEq, Eq, Structural, Debug)]
pub enum BackendKind {
    /// All rasterization work happens synchronously inside `swap_buffers` and
    /// `read_scanline` on the timing thread.
    InlineSoftware,
    /// The software rasterizer runs on a dedicated thread in scanline
    /// lockstep.
    ThreadedSoftware,
    /// Geometry is submitted to a graphics device queue; results come back
    /// through the accelerated renderer's internal double buffer.
    ThreadedAccelerated,
}

/// Resolve the configured renderer kinds: a GPU 3D rasterizer forces the
/// lockstep GPU 2D compositor, and the pair is GPU-accelerated exactly when
/// the resolved 2D kind is the lockstep GPU one. The boolean tells the display
/// side whether its source is a GPU-resident view rather than an owned pixel
/// buffer.
pub fn resolve_renderer_kinds(renderer_2d: Renderer2dKind, renderer_3d: Renderer3dKind) -> (r: (
    Renderer2dKind,
    bool,
))
    ensures
        r.0 == (if renderer_3d is Wgpu {
            Renderer2dKind::WgpuLockstepScanlines
        } else {
            renderer_2d
        }),
        r.1 <==> r.0 is WgpuLockstepScanlines,
{
    let resolved: Renderer2dKind = if matches!(renderer_3d, Renderer3dKind::Wgpu) {
        Renderer2dKind::WgpuLockstepScanlines
    } else {
        renderer_2d
    };
    let is_accel: bool = matches!(resolved, Renderer2dKind::WgpuLockstepScanlines);
    (resolved, is_accel)
}

/// Which backend implementation a resolved configuration selects.
pub fn backend_kind_for(resolved_2d: Renderer2dKind, renderer_3d: Renderer3dKind) -> (k:
    BackendKind)
    ensures
        k == (if renderer_3d is Wgpu {
            BackendKind::ThreadedAccelerated
        } else if resolved_2d is SoftSync {
            BackendKind::InlineSoftware
        } else {
            BackendKind::ThreadedSoftware
        }),
{
    if matches!(renderer_3d, Renderer3dKind::Wgpu) {
        BackendKind::ThreadedAccelerated
    } else if matches!(resolved_2d, Renderer2dKind::SoftSync) {
        BackendKind::InlineSoftware
    } else {
        BackendKind::ThreadedSoftware
    }
}

/// Tracks which backend is live, and enforces the teardown discipline: a new
/// backend may only be constructed once the previous one is fully stopped
/// (and, for a threaded one, joined).
pub struct BackendManager {
    active: Option<BackendKind>,
}

impl BackendManager {
    /// The currently live backend, if any.
    pub closed spec fn active_spec(&self) -> Option<BackendKind> {
        self.active
    }

    /// No backend is live yet.
    pub fn new() -> (r: Self)
        ensures
            r.active_spec() is None,
    {
        BackendManager { active: None }
    }

    /// The currently live backend, if any.
    pub fn active(&self) -> (r: Option<BackendKind>)
        ensures
            r == self.active_spec(),
    {
        self.active
    }

    /// Record that a backend was constructed and is now live. The previous one
    /// must have been torn down first: swapping is only safe between frames,
    /// after a full stop and join of the outgoing backend.
    pub fn activate(&mut self, kind: BackendKind)
        requires
            old(self).active_spec() is None,
        ensures
            final(self).active_spec() == Some(kind),
    {
        self.active = Some(kind);
    }

    /// Record that the live backend was stopped and joined. Returns whether
    /// one was live.
    pub fn teardown(&mut self) -> (had: bool)
        ensures
            final(self).active_spec() is None,
            had <==> old(self).active_spec() is Some,
    {
        let had: bool = matches!(self.active, Some(_));
        self.active = None;
        had
    }
}

/// What the display side must do to the framebuffer texture when the source
/// of display output changes.
#[derive(Clone, Copy, PartialEq, Eq, Structural, Debug)]
pub enum FbTextureAction {
    /// Nothing: the texture already has the right form.
    Keep,
    /// Drop the current texture and create an owned pixel-buffer texture.
    CreateOwned,
    /// Drop the current texture and register the GPU-resident view.
    CreateView,
    /// Point the already-registered view texture at the new view in place.
    UpdateView,
}

/// Whether the displayed framebuffer texture is an owned pixel buffer (filled
/// from frame data each frame) or a GPU-resident view handed over by the
/// accelerated renderer. Decides the texture-management actions; the GPU
/// calls themselves are the display layer's business.
pub struct FbTextureState {
    id: u64,
    is_view: bool,
}

impl FbTextureState {
    /// The texture handle currently displayed.
    pub closed spec fn id_spec(&self) -> u64 {
        self.id
    }

    /// Whether the displayed texture is a GPU-resident view.
    pub closed spec fn is_view_spec(&self) -> bool {
        self.is_view
    }

    /// A fresh owned texture.
    pub fn new(id: u64) -> (r: Self)
        ensures
            r.id_spec() == id,
            !r.is_view_spec(),
    {
        FbTextureState { id, is_view: false }
    }

    /// The texture handle currently displayed.
    pub fn id(&self) -> (r: u64)
        ensures
            r == self.id_spec(),
    {
        self.id
    }

    /// Whether the displayed texture is a GPU-resident view.
    pub fn is_view(&self) -> (r: bool)
        ensures
            r == self.is_view_spec(),
    {
        self.is_view
    }

    /// What switching to an owned texture requires: recreation exactly when a
    /// view is currently displayed, otherwise nothing.
    pub fn set_owned_action(&self) -> (a: FbTextureAction)
        ensures
            a == (if self.is_view_spec() {
                FbTextureAction::CreateOwned
            } else {
                FbTextureAction::Keep
            }),
    {
        if self.is_view {
            FbTextureAction::CreateOwned
        } else {
            FbTextureAction::Keep
        }
    }

    /// Record the owned texture now displayed (after a `CreateOwned`, the
    /// freshly created handle; after a `Keep`, the unchanged one).
    pub fn apply_owned(&mut self, id: u64)
        ensures
            final(self).id_spec() == id,
            !final(self).is_view_spec(),
    {
        self.id = id;
        self.is_view = false;
    }

    /// What switching to a GPU-resident view requires: an in-place update if a
    /// view is already displayed, else dropping the owned texture and
    /// registering the view.
    pub fn set_view_action(&self) -> (a: FbTextureAction)
        ensures
            a == (if self.is_view_spec() {
                FbTextureAction::UpdateView
            } else {
                FbTextureAction::CreateView
            }),
    {
        if self.is_view {
            FbTextureAction::UpdateView
        } else {
            FbTextureAction::CreateView
        }
    }

    /// Record the view texture now displayed.
    pub fn apply_view(&mut self, id: u64)
        ensures
            final(self).id_spec() == id,
            final(self).is_view_spec(),
    {
        self.id = id;
        self.is_view = true;
    }
}

} // verus!
