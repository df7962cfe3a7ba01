use vstd::prelude::*;
use std::sync::Arc;

verus! {

/// Holds the application state once it is initialised. One holder is passed
/// explicitly to whoever needs the state; none is process-wide.
pub struct Runtime<T> {
    instance: Option<Arc<T>>,
}

impl<T> Runtime<T> {
    pub closed spec fn instance(&self) -> Option<T> {
        match self.instance {
            Some(a) => Some(*a),
            None => None,
        }
    }

    pub fn new() -> (r: Runtime<T>)
        ensures
            r.instance() is None,
    {
        Runtime { instance: None }
    }

    pub fn is_initialized(&self) -> (r: bool)
        ensures
            r == self.instance() is Some,
    {
        self.instance.is_some()
    }

    /// Stores the application state. It can be set only once.
    pub fn init(&mut self, state: T)
        requires
            old(self).instance() is None,
        ensures
            final(self).instance() == Some(state),
    {
        self.instance = Some(Arc::new(state));
    }
}

/// The application state of `rt`, which must be initialised.
pub fn wn<T>(rt: &Runtime<T>) -> (r: &Arc<T>)
    requires
        rt.instance() is Some,
    ensures
        **r == rt.instance()->Some_0,
{
    rt.instance.as_ref().unwrap()
}

} // verus!
