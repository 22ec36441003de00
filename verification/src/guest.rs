//! Guest-side scalar types of the 32-bit iPhone OS ABI.
use vstd::prelude::*;

verus! {

/// An Objective-C object pointer in guest memory.
pub type Id = u32;

/// The `nil` object pointer.
pub const NIL: Id = 0;

/// Foundation's `NSInteger` (32 bits on the guest).
pub type NSInteger = i32;

/// Foundation's `NSUInteger` (32 bits on the guest).
pub type NSUInteger = u32;

} // verus!
