//! A verified model of an asynchronous socket I/O runtime driven by an
//! operating system completion facility.
//!
//! The heart of the library is the completion-bridging protocol in
//! [`iocp_threadpool`]: one overlapped operation is launched per bridged call,
//! and its result arrives either synchronously (the call itself reports a byte
//! count) or asynchronously (a completion callback fires later, possibly on
//! another thread).  The protocol guarantees that exactly one of those two
//! paths writes the operation's result slot.
//!
//! The operating system calls themselves cannot be made from verified code;
//! every function here instead takes the outcome of such a call as an
//! argument and is verified to make the right decision for every outcome.
//! A thin unverified shell performs the calls and feeds the outcomes in.

pub mod error;
pub mod iocp_threadpool;
pub mod listener;
pub mod reactor;
pub mod stream;
pub mod threadpool;
