pub mod accept;
pub mod block;
pub mod history;
pub mod index;
pub mod position;
pub mod protocol;
pub mod readiness;
pub mod seg_queue;
pub mod slot;
