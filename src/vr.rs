//! The per-eye views that a VR display hands to script: each draws into a
//! framebuffer of the VR compositor, which script sees as a framebuffer
//! object with a reserved name, bound and unbound through VR commands.
use crate::processor::WebGLContextId;
use vstd::prelude::*;

verus! {

/// The rectangle of a view inside the VR framebuffer.
#[derive(Clone, Copy, Debug, PartialEq, Eq, Structural)]
pub struct WebVRViewport {
    pub x: i32,
    pub y: i32,
    pub width: i32,
    pub height: i32,
}

/// What the VR framebuffer of a view was allocated with.
#[derive(Clone, Copy, Debug, PartialEq, Eq, Structural)]
pub struct WebVRFramebufferAttributes {
    pub multiview: bool,
    pub depth: bool,
    pub multisampling: bool,
}

/// The VR framebuffer of one eye.
#[derive(Clone, Copy, Debug, PartialEq, Eq, Structural)]
pub struct WebVRFramebuffer {
    pub eye_index: u32,
    pub attributes: WebVRFramebufferAttributes,
    pub viewport: WebVRViewport,
}

/// The viewport as script reads it.
#[derive(Clone, Copy, Debug, PartialEq, Eq, Structural)]
pub struct VRViewport {
    pub x: Option<i32>,
    pub y: Option<i32>,
    pub width: Option<i32>,
    pub height: Option<i32>,
}

/// The framebuffer attributes as script reads them.
#[derive(Clone, Copy, Debug, PartialEq, Eq, Structural)]
pub struct VRAttributes {
    pub depth: bool,
    pub multiview: bool,
    pub antialias: bool,
}

/// The VR commands that bind and unbind the framebuffer of one eye.
#[derive(Clone, Copy, Debug, PartialEq, Eq, Structural)]
pub enum WebVRCommand {
    BindFramebuffer(u32, u32),
    UnbindFramebuffer(u32, u32),
}

/// The reserved framebuffer name of an eye: it cannot collide with the names
/// that the driver hands out for ordinary framebuffers.
pub open spec fn vr_framebuffer_name(device_id: u32, eye_index: u32) -> int {
    device_id * 1000 + eye_index
}

/// What script needs to use the framebuffer of a view: its reserved name,
/// and the commands, for the view's context, that bind and unbind it.
#[derive(Clone, Copy, Debug, PartialEq, Eq, Structural)]
pub struct VRFramebufferBinding {
    pub framebuffer_id: u32,
    pub context_id: WebGLContextId,
    pub bind: WebVRCommand,
    pub unbind: WebVRCommand,
}

pub struct VRView {
    context_id: WebGLContextId,
    device_id: u32,
    fbo: WebVRFramebuffer,
}

impl VRView {
    pub fn new(context_id: WebGLContextId, device_id: u32, fbo: WebVRFramebuffer) -> (r: VRView)
        ensures
            r.context_id() == context_id,
            r.device_id() == device_id,
            r.fbo() == fbo,
    {
        VRView { context_id, device_id, fbo }
    }

    pub closed spec fn context_id(&self) -> WebGLContextId {
        self.context_id
    }

    pub closed spec fn device_id(&self) -> u32 {
        self.device_id
    }

    pub closed spec fn fbo(&self) -> WebVRFramebuffer {
        self.fbo
    }

    /// The framebuffer of the view. `None` where the reserved name would be
    /// 0 (no framebuffer) or would not fit in 32 bits.
    #[allow(non_snake_case)]
    pub fn Framebuffer(&self) -> (r: Option<VRFramebufferBinding>)
        ensures
            ({
                let name = vr_framebuffer_name(self.device_id(), self.fbo().eye_index);
                if 0 < name <= u32::MAX {
                    r == Some(VRFramebufferBinding {
                        framebuffer_id: name as u32,
                        context_id: self.context_id(),
                        bind: WebVRCommand::BindFramebuffer(self.device_id(), self.fbo().eye_index),
                        unbind: WebVRCommand::UnbindFramebuffer(self.device_id(), self.fbo().eye_index),
                    })
                } else {
                    r is None
                }
            }),
    {
        let eye = self.fbo.eye_index;
        let base = match self.device_id.checked_mul(1000) {
            Some(b) => b,
            None => {
                return None;
            },
        };
        let name = match base.checked_add(eye) {
            Some(n) => n,
            None => {
                return None;
            },
        };
        if name == 0 {
            return None;
        }
        Some(VRFramebufferBinding {
            framebuffer_id: name,
            context_id: self.context_id,
            bind: WebVRCommand::BindFramebuffer(self.device_id, eye),
            unbind: WebVRCommand::UnbindFramebuffer(self.device_id, eye),
        })
    }

    #[allow(non_snake_case)]
    pub fn GetViewport(&self) -> (r: VRViewport)
        ensures
            r == (VRViewport {
                x: Some(self.fbo().viewport.x),
                y: Some(self.fbo().viewport.y),
                width: Some(self.fbo().viewport.width),
                height: Some(self.fbo().viewport.height),
            }),
    {
        VRViewport {
            x: Some(self.fbo.viewport.x),
            y: Some(self.fbo.viewport.y),
            width: Some(self.fbo.viewport.width),
            height: Some(self.fbo.viewport.height),
        }
    }

    #[allow(non_snake_case)]
    pub fn GetAttributes(&self) -> (r: VRAttributes)
        ensures
            r == (VRAttributes {
                depth: self.fbo().attributes.depth,
                multiview: self.fbo().attributes.multiview,
                antialias: self.fbo().attributes.multisampling,
            }),
    {
        VRAttributes {
            depth: self.fbo.attributes.depth,
            multiview: self.fbo.attributes.multiview,
            antialias: self.fbo.attributes.multisampling,
        }
    }
}

/// The views of a VR display, in order.
pub struct VRViewList {
    views: Vec<VRView>,
}

impl View for VRViewList {
    type V = Seq<VRView>;

    closed spec fn view(&self) -> Seq<VRView> {
        self.views@
    }
}

impl VRViewList {
    pub fn new(views: Vec<VRView>) -> (r: VRViewList)
        ensures
            r@ == views@,
    {
        VRViewList { views }
    }

    /// Number of views, as script's 32-bit length.
    #[allow(non_snake_case)]
    pub fn Length(&self) -> (r: u32)
        ensures
            r == self@.len() as u32,
    {
        self.views.len() as u32
    }

    /// The view at `index`; `None` past the end.
    #[allow(non_snake_case)]
    pub fn Item(&self, index: u32) -> (r: Option<&VRView>)
        ensures
            (index as int) < self@.len() ==> r == Some(&self@[index as int]),
            (index as int) >= self@.len() ==> r is None,
    {
        let i = index as usize;
        if i < self.views.len() {
            Some(&self.views[i])
        } else {
            None
        }
    }

    /// Script's indexed access, the same as `Item`.
    #[allow(non_snake_case)]
    pub fn IndexedGetter(&self, index: u32) -> (r: Option<&VRView>)
        ensures
            (index as int) < self@.len() ==> r == Some(&self@[index as int]),
            (index as int) >= self@.len() ==> r is None,
    {
        self.Item(index)
    }
}

} // verus!
