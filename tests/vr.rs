use canvas::processor::WebGLContextId;
use canvas::vr::{
    VRAttributes, VRView, VRViewList, VRViewport, WebVRCommand, WebVRFramebuffer,
    WebVRFramebufferAttributes, WebVRViewport,
};

fn fbo(eye_index: u32) -> WebVRFramebuffer {
    WebVRFramebuffer {
        eye_index,
        attributes: WebVRFramebufferAttributes { multiview: false, depth: true, multisampling: true },
        viewport: WebVRViewport { x: 10, y: 20, width: 640, height: 480 },
    }
}

#[test]
fn framebuffer_uses_the_reserved_name() {
    let view = VRView::new(WebGLContextId(2), 3, fbo(1));
    let fb = view.Framebuffer().unwrap();
    assert_eq!(fb.framebuffer_id, 3001);
    assert_eq!(fb.context_id, WebGLContextId(2));
    assert_eq!(fb.bind, WebVRCommand::BindFramebuffer(3, 1));
    assert_eq!(fb.unbind, WebVRCommand::UnbindFramebuffer(3, 1));
}

#[test]
fn framebuffer_name_must_be_nonzero_and_fit() {
    assert!(VRView::new(WebGLContextId(0), 0, fbo(0)).Framebuffer().is_none());
    assert_eq!(VRView::new(WebGLContextId(0), 0, fbo(1)).Framebuffer().unwrap().framebuffer_id, 1);
    assert!(VRView::new(WebGLContextId(0), u32::MAX, fbo(0)).Framebuffer().is_none());
    assert!(VRView::new(WebGLContextId(0), 4_294_967, fbo(296)).Framebuffer().is_none());
    assert_eq!(VRView::new(WebGLContextId(0), 4_294_967, fbo(295)).Framebuffer().unwrap().framebuffer_id, u32::MAX);
}

#[test]
fn viewport_and_attributes() {
    let view = VRView::new(WebGLContextId(0), 1, fbo(0));
    assert_eq!(view.GetViewport(), VRViewport { x: Some(10), y: Some(20), width: Some(640), height: Some(480) });
    assert_eq!(view.GetAttributes(), VRAttributes { depth: true, multiview: false, antialias: true });
}

#[test]
fn view_list_indexing() {
    let list = VRViewList::new(vec![VRView::new(WebGLContextId(0), 1, fbo(0)), VRView::new(WebGLContextId(0), 1, fbo(1))]);
    assert_eq!(list.Length(), 2);
    assert_eq!(list.Item(1).unwrap().Framebuffer().unwrap().framebuffer_id, 1001);
    assert!(list.Item(2).is_none());
    assert!(list.IndexedGetter(0).is_some());
    assert_eq!(VRViewList::new(vec![]).Length(), 0);
}
