//! The state the scripting side keeps for one buffer object: the target it
//! was first bound to, its capacity, whether it is deleted, bound, or held by
//! vertex array objects. Methods that would make the driver act say so in
//! their result; the host then sends the matching command.
use crate::gl;
use crate::params::{WebGLError, WebGLResult};
use std::collections::HashSet;
use vstd::prelude::*;

verus! {

broadcast use vstd::std_specs::hash::group_hash_axioms;

/// A buffer object's state, as contracts see it.
pub struct BufferView {
    pub id: u32,
    pub target: Option<u32>,
    pub capacity: nat,
    pub deleted: bool,
    pub currently_bound: bool,
    pub vao_references: Option<Set<u32>>,
    pub pending_delete: bool,
}

/// Whether a buffer first bound to `first` may now be bound to `second`.
pub open spec fn bind_allowed(currently_bound: bool, first: u32, second: u32) -> bool {
    if second == gl::COPY_READ_BUFFER || second == gl::COPY_WRITE_BUFFER {
        true
    } else if currently_bound && first != second && (first == gl::TRANSFORM_FEEDBACK_BUFFER
        || second == gl::TRANSFORM_FEEDBACK_BUFFER) {
        false
    } else {
        (first == gl::ELEMENT_ARRAY_BUFFER) == (second == gl::ELEMENT_ARRAY_BUFFER)
    }
}

pub struct WebGLBuffer {
    id: u32,
    target: Option<u32>,
    capacity: usize,
    is_deleted: bool,
    currently_bound: bool,
    vao_references: Option<HashSet<u32>>,
    pending_delete: bool,
}

impl View for WebGLBuffer {
    type V = BufferView;

    closed spec fn view(&self) -> BufferView {
        BufferView {
            id: self.id,
            target: self.target,
            capacity: self.capacity as nat,
            deleted: self.is_deleted,
            currently_bound: self.currently_bound,
            vao_references: match self.vao_references {
                Some(s) => Some(s@),
                None => None,
            },
            pending_delete: self.pending_delete,
        }
    }
}

impl WebGLBuffer {
    /// A fresh buffer with the given object name: never bound, empty, live.
    pub fn new(id: u32) -> (r: WebGLBuffer)
        ensures
            r@ == WebGLBuffer::new_view(id),
    {
        WebGLBuffer {
            id,
            target: None,
            capacity: 0,
            is_deleted: false,
            currently_bound: false,
            vao_references: None,
            pending_delete: false,
        }
    }

    /// A buffer for the reply to `CreateBuffer`: none when the driver made none.
    pub fn maybe_new(created: Option<u32>) -> (r: Option<WebGLBuffer>)
        ensures
            match created {
                Some(id) => r matches Some(b) && b@ == WebGLBuffer::new_view(id),
                None => r is None,
            },
    {
        match created {
            Some(id) => Some(WebGLBuffer::new(id)),
            None => None,
        }
    }

    pub open spec fn new_view(id: u32) -> BufferView {
        BufferView {
            id,
            target: None,
            capacity: 0,
            deleted: false,
            currently_bound: false,
            vao_references: None,
            pending_delete: false,
        }
    }

    pub fn id(&self) -> (r: u32)
        ensures
            r == self@.id,
    {
        self.id
    }

    fn is_bind_allowed(&self, first: u32, second: u32) -> (r: bool)
        ensures
            r == bind_allowed(self@.currently_bound, first, second),
    {
        // Rebinding any target to a copy target is allowed.
        if second == gl::COPY_READ_BUFFER || second == gl::COPY_WRITE_BUFFER {
            return true;
        }
        // A transform feedback buffer cannot be bound to another target at the same time.
        if self.currently_bound && first != second && (first == gl::TRANSFORM_FEEDBACK_BUFFER
            || second == gl::TRANSFORM_FEEDBACK_BUFFER) {
            return false;
        }
        // An element array buffer stays one, and no other buffer becomes one.
        (first == gl::ELEMENT_ARRAY_BUFFER) == (second == gl::ELEMENT_ARRAY_BUFFER)
    }

    /// Records `target` as the buffer's target, unless the target it was
    /// first bound to forbids the change (`InvalidOperation`, nothing changes).
    pub fn update_target(&mut self, target: u32) -> (r: WebGLResult<()>)
        ensures
            match old(self)@.target {
                Some(prev) if !bind_allowed(old(self)@.currently_bound, prev, target) => {
                    &&& r == Err::<(), WebGLError>(WebGLError::InvalidOperation)
                    &&& final(self)@ == old(self)@
                },
                _ => {
                    &&& r == Ok::<(), WebGLError>(())
                    &&& final(self)@ == (BufferView { target: Some(target), ..old(self)@ })
                },
            },
    {
        if let Some(prev) = self.target {
            if !self.is_bind_allowed(prev, target) {
                return Err(WebGLError::InvalidOperation);
            }
        }
        self.target = Some(target);
        Ok(())
    }

    /// Binds the buffer to `target`: refused (`InvalidOperation`) once it is
    /// deleted, otherwise as `update_target`. On `Ok` the host sends the bind.
    pub fn bind(&mut self, target: u32) -> (r: WebGLResult<()>)
        ensures
            old(self)@.deleted ==> r == Err::<(), WebGLError>(WebGLError::InvalidOperation) && final(self)@ == old(self)@,
            !old(self)@.deleted ==> match old(self)@.target {
                Some(prev) if !bind_allowed(old(self)@.currently_bound, prev, target) => {
                    &&& r == Err::<(), WebGLError>(WebGLError::InvalidOperation)
                    &&& final(self)@ == old(self)@
                },
                _ => {
                    &&& r == Ok::<(), WebGLError>(())
                    &&& final(self)@ == (BufferView { target: Some(target), ..old(self)@ })
                },
            },
    {
        if self.is_deleted {
            return Err(WebGLError::InvalidOperation);
        }
        self.update_target(target)
    }

    /// Records new contents of `data.len()` bytes for `target`: refused
    /// (`InvalidOperation`) when the buffer already has another target. On
    /// `Ok` the host sends the data.
    pub fn buffer_data(&mut self, target: u32, data: &[u8]) -> (r: WebGLResult<()>)
        ensures
            match old(self)@.target {
                Some(prev) if prev != target => {
                    &&& r == Err::<(), WebGLError>(WebGLError::InvalidOperation)
                    &&& final(self)@ == old(self)@
                },
                _ => {
                    &&& r == Ok::<(), WebGLError>(())
                    &&& final(self)@ == (BufferView { capacity: data@.len(), ..old(self)@ })
                },
            },
    {
        if let Some(previous_target) = self.target {
            if target != previous_target {
                return Err(WebGLError::InvalidOperation);
            }
        }
        self.capacity = data.len();
        Ok(())
    }

    pub fn capacity(&self) -> (r: usize)
        ensures
            r as nat == self@.capacity,
    {
        self.capacity
    }

    /// Marks the buffer deleted. Says whether the host must send the delete:
    /// only the first time.
    pub fn delete(&mut self) -> (r: bool)
        ensures
            r == !old(self)@.deleted,
            final(self)@ == (BufferView { deleted: true, ..old(self)@ }),
    {
        if !self.is_deleted {
            self.is_deleted = true;
            true
        } else {
            false
        }
    }

    pub fn is_deleted(&self) -> (r: bool)
        ensures
            r == self@.deleted,
    {
        self.is_deleted
    }

    pub fn is_currently_bound(&self) -> (r: bool)
        ensures
            r == self@.currently_bound,
    {
        self.currently_bound
    }

    pub fn set_currently_bound(&mut self, value: bool)
        ensures
            final(self)@ == (BufferView { currently_bound: value, ..old(self)@ }),
    {
        self.currently_bound = value;
    }

    pub fn target(&self) -> (r: Option<u32>)
        ensures
            r == self@.target,
    {
        self.target
    }

    /// Whether some vertex array object still refers to the buffer.
    pub fn is_attached_to_vao(&self) -> (r: bool)
        ensures
            r == (self@.vao_references matches Some(s) && !s.is_empty()),
    {
        match &self.vao_references {
            Some(vaos) => !vaos.is_empty(),
            None => false,
        }
    }

    pub fn set_pending_delete(&mut self)
        ensures
            final(self)@ == (BufferView { pending_delete: true, ..old(self)@ }),
    {
        self.pending_delete = true;
    }

    /// Records that the vertex array object `id` refers to the buffer.
    pub fn add_vao_reference(&mut self, id: u32)
        ensures
            final(self)@ == (BufferView {
                vao_references: Some(
                    match old(self)@.vao_references {
                        Some(s) => s,
                        None => Set::empty(),
                    }.insert(id),
                ),
                ..old(self)@
            }),
    {
        match &mut self.vao_references {
            Some(vaos) => {
                vaos.insert(id);
                return;
            },
            None => {},
        }
        let mut set = HashSet::new();
        set.insert(id);
        self.vao_references = Some(set);
    }

    /// Forgets that the vertex array object `id` refers to the buffer. When
    /// it did, and a delete was pending, the buffer is now deleted and the
    /// result says that the host must send the delete.
    pub fn remove_vao_reference(&mut self, id: u32) -> (r: bool)
        ensures
            r == (old(self)@.vao_references matches Some(s) && s.contains(id) && old(self)@.pending_delete),
            final(self)@ == (BufferView {
                vao_references: match old(self)@.vao_references {
                    Some(s) => Some(s.remove(id)),
                    None => None,
                },
                deleted: old(self)@.deleted || r,
                ..old(self)@
            }),
    {
        let mut send_delete = false;
        match &mut self.vao_references {
            Some(vaos) => {
                if vaos.remove(&id) && self.pending_delete {
                    send_delete = true;
                }
            },
            None => {},
        }
        if send_delete {
            self.is_deleted = true;
        }
        send_delete
    }

    /// Puts `buffer` into a binding slot, which holds the name of the
    /// buffer bound there. `previous` is the buffer the slot held, when that
    /// is another buffer: it is no longer bound there. `buffer` is bound, and
    /// the slot names it afterwards (or nothing).
    pub fn update_slot(slot: &mut Option<u32>, previous: Option<&mut WebGLBuffer>, buffer: Option<&mut WebGLBuffer>)
        requires
            previous matches Some(p) ==> *old(slot) == Some(p@.id),
        ensures
            previous matches Some(p) ==> final(p)@ == (BufferView { currently_bound: false, ..p@ }),
            buffer matches Some(b) ==> final(b)@ == (BufferView { currently_bound: true, ..b@ }),
            *final(slot) == (match buffer {
                Some(b) => Some(b@.id),
                None => None::<u32>,
            }),
    {
        if let Some(p) = previous {
            p.set_currently_bound(false);
        }
        let entering = match buffer {
            Some(b) => {
                b.set_currently_bound(true);
                Some(b.id())
            },
            None => None,
        };
        *slot = entering;
    }
}

} // verus!
