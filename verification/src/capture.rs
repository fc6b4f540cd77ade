//! A shareable in-memory buffer that collects everything a view writes,
//! for tests.
//!
//! The buffer is a verified reader-writer lock around a `String`, shared
//! through an `Arc` so that it stays readable after the view that fed it
//! has been finished or abandoned.

use std::sync::Arc;

use vstd::prelude::*;
use vstd::rwlock::{RwLock, RwLockPredicate};
use vstd::string::StringExecFns;

verus! {

/// The lock invariant for the capture buffer: any text is allowed.
pub struct CapturePred;

impl RwLockPredicate<String> for CapturePred {
    open spec fn inv(self, v: String) -> bool {
        true
    }
}

/// A shared buffer of captured output.
///
/// Cloning the buffer yields a handle onto the same underlying text, so a
/// test can keep a handle and read what a view wrote even after the view
/// itself has been consumed.
#[derive(Clone)]
pub struct CaptureBuffer {
    cell: Arc<RwLock<String, CapturePred>>,
}

impl CaptureBuffer {
    /// An empty capture buffer.
    pub fn new() -> CaptureBuffer {
        CaptureBuffer { cell: Arc::new(RwLock::new(String::new(), Ghost(CapturePred))) }
    }

    /// Append `text` to the buffer.
    pub fn append(&self, text: &str) {
        let (mut s, handle) = self.cell.acquire_write();
        s.append(text);
        handle.release_write(s);
    }

    /// A copy of the buffer's current contents.
    pub fn get(&self) -> String {
        let handle = self.cell.acquire_read();
        let copy = handle.borrow().clone();
        handle.release_read();
        copy
    }

    /// Remove and return the buffer's current contents, leaving it empty.
    pub fn take(&self) -> String {
        let (s, handle) = self.cell.acquire_write();
        handle.release_write(String::new());
        s
    }

    /// Empty the buffer.
    pub fn clear(&self) {
        let (_s, handle) = self.cell.acquire_write();
        handle.release_write(String::new());
    }
}

} // verus!
