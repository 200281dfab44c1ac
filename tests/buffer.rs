use canvas::buffer::WebGLBuffer;
use canvas::gl;
use canvas::params::WebGLError;

#[test]
fn first_bind_sets_the_target() {
    let mut b = WebGLBuffer::new(4);
    assert_eq!(b.id(), 4);
    assert_eq!(b.target(), None);
    assert_eq!(b.bind(gl::ARRAY_BUFFER), Ok(()));
    assert_eq!(b.target(), Some(gl::ARRAY_BUFFER));
}

#[test]
fn element_array_buffers_keep_their_kind() {
    let mut b = WebGLBuffer::new(1);
    assert_eq!(b.bind(gl::ELEMENT_ARRAY_BUFFER), Ok(()));
    assert_eq!(b.bind(gl::ARRAY_BUFFER), Err(WebGLError::InvalidOperation));
    assert_eq!(b.target(), Some(gl::ELEMENT_ARRAY_BUFFER));
    let mut c = WebGLBuffer::new(2);
    assert_eq!(c.bind(gl::ARRAY_BUFFER), Ok(()));
    assert_eq!(c.bind(gl::ELEMENT_ARRAY_BUFFER), Err(WebGLError::InvalidOperation));
}

#[test]
fn copy_targets_are_always_allowed() {
    let mut b = WebGLBuffer::new(1);
    assert_eq!(b.bind(gl::ELEMENT_ARRAY_BUFFER), Ok(()));
    assert_eq!(b.bind(gl::COPY_READ_BUFFER), Ok(()));
    assert_eq!(b.bind(gl::COPY_WRITE_BUFFER), Ok(()));
}

#[test]
fn bound_transform_feedback_buffer_cannot_switch() {
    let mut b = WebGLBuffer::new(1);
    assert_eq!(b.bind(gl::TRANSFORM_FEEDBACK_BUFFER), Ok(()));
    b.set_currently_bound(true);
    assert!(b.is_currently_bound());
    assert_eq!(b.update_target(gl::ARRAY_BUFFER), Err(WebGLError::InvalidOperation));
    b.set_currently_bound(false);
    assert_eq!(b.update_target(gl::ARRAY_BUFFER), Ok(()));
}

#[test]
fn buffer_data_records_capacity_for_its_target() {
    let mut b = WebGLBuffer::new(1);
    assert_eq!(b.buffer_data(gl::ARRAY_BUFFER, &[1, 2, 3]), Ok(()));
    assert_eq!(b.capacity(), 3);
    assert_eq!(b.bind(gl::ARRAY_BUFFER), Ok(()));
    assert_eq!(b.buffer_data(gl::ELEMENT_ARRAY_BUFFER, &[0; 8]), Err(WebGLError::InvalidOperation));
    assert_eq!(b.capacity(), 3);
    assert_eq!(b.buffer_data(gl::ARRAY_BUFFER, &[]), Ok(()));
    assert_eq!(b.capacity(), 0);
}

#[test]
fn delete_is_sent_once_and_blocks_binding() {
    let mut b = WebGLBuffer::new(1);
    assert!(b.delete());
    assert!(b.is_deleted());
    assert!(!b.delete());
    assert_eq!(b.bind(gl::ARRAY_BUFFER), Err(WebGLError::InvalidOperation));
}

#[test]
fn pending_delete_waits_for_the_last_vao() {
    let mut b = WebGLBuffer::new(1);
    assert!(!b.is_attached_to_vao());
    b.add_vao_reference(10);
    b.add_vao_reference(11);
    assert!(b.is_attached_to_vao());
    b.set_pending_delete();
    assert!(!b.remove_vao_reference(99));
    assert!(b.remove_vao_reference(10));
    assert!(b.is_deleted());
    assert!(b.is_attached_to_vao());
    assert!(b.remove_vao_reference(11));
    assert!(!b.is_attached_to_vao());
}

#[test]
fn removing_a_vao_without_pending_delete_keeps_the_buffer() {
    let mut b = WebGLBuffer::new(1);
    b.add_vao_reference(10);
    assert!(!b.remove_vao_reference(10));
    assert!(!b.is_deleted());
    assert!(!b.is_attached_to_vao());
}

#[test]
fn maybe_new_follows_the_reply() {
    assert!(WebGLBuffer::maybe_new(None).is_none());
    let b = WebGLBuffer::maybe_new(Some(6)).unwrap();
    assert_eq!(b.id(), 6);
    assert_eq!(b.capacity(), 0);
    assert!(!b.is_deleted());
}

#[test]
fn update_slot_moves_the_binding() {
    let mut a = WebGLBuffer::new(1);
    let mut b = WebGLBuffer::new(2);
    let mut slot: Option<u32> = None;
    WebGLBuffer::update_slot(&mut slot, None, Some(&mut a));
    assert_eq!(slot, Some(1));
    assert!(a.is_currently_bound());
    WebGLBuffer::update_slot(&mut slot, Some(&mut a), Some(&mut b));
    assert_eq!(slot, Some(2));
    assert!(!a.is_currently_bound());
    assert!(b.is_currently_bound());
    WebGLBuffer::update_slot(&mut slot, None, Some(&mut b));
    assert_eq!(slot, Some(2));
    assert!(b.is_currently_bound());
    WebGLBuffer::update_slot(&mut slot, Some(&mut b), None);
    assert_eq!(slot, None);
    assert!(!b.is_currently_bound());
}
