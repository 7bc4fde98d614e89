//! A monitor that is generic in what it watches.

use vstd::prelude::*;

verus! {

#[derive(Debug)]
pub struct DiskSpace;

pub struct FreeMem;

#[derive(Debug, Copy, Clone, PartialEq, Eq, Structural)]
pub enum MonitorableComponent {
    DiskSpace,
    FreeMem,
}

/// Something that is watched, together with what is known of it.
pub struct Monitorable<T> {
    pub context: T,
}

pub trait CanMonitor<T> {
    /// What `get_context` hands out.
    spec fn watched(&self) -> T;

    /// A copy of what is known of the watched thing.
    fn get_context(&self) -> (context: T) where T: Copy
        ensures
            context == self.watched(),
    ;
}

impl Monitorable<MonitorableComponent> {
    /// A monitor of the given component.
    pub fn new(item: MonitorableComponent) -> (monitor: Self)
        ensures
            monitor.context == item,
    {
        Self { context: item }
    }
}

impl<T> CanMonitor<T> for Monitorable<T> {
    open spec fn watched(&self) -> T {
        self.context
    }

    fn get_context(&self) -> (context: T) where T: Copy {
        return self.context;
    }
}

} // verus!
