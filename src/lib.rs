//! A task board's store: the list of tasks as it is kept, and the list that the
//! board shows at a given time, where finished tasks fade out after a day and
//! snoozed tasks wake once their time has passed.

pub mod task;
pub mod lifecycle;
pub mod cache;
pub mod protocol;
