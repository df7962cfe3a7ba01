use vstd::prelude::*;

verus! {

/// State updates sent from the model to the view layer.
#[derive(Debug, Clone, Copy, PartialEq, Eq, Structural)]
pub enum ModelUpdate {
    CountChanged { count: i32 },
}

/// Requests for state changes sent from the view layer to the model.
#[derive(Debug, Clone, Copy, PartialEq, Eq, Structural)]
pub enum Action {
    Increment,
    Decrement,
}

/// The change that an action makes to the count.
pub open spec fn delta(action: Action) -> int {
    match action {
        Action::Increment => 1,
        Action::Decrement => -1,
    }
}

/// Whether applying `action` to `count` stays within `i32`.
pub open spec fn action_fits(count: i32, action: Action) -> bool {
    i32::MIN <= count + delta(action) <= i32::MAX
}

/// Source of truth for the application state.
#[derive(Debug)]
pub struct Model {
    pub count: i32,
    pub data_dir: String,
}

impl Model {
    pub fn create(data_dir: String) -> (m: Model)
        ensures
            m.count == 0,
            m.data_dir == data_dir,
    {
        Model { count: 0, data_dir }
    }

    /// Applies `action` and returns the update to publish.
    pub fn action(&mut self, action: Action) -> (u: ModelUpdate)
        requires
            action_fits(old(self).count, action),
        ensures
            final(self).count == old(self).count + delta(action),
            final(self).data_dir == old(self).data_dir,
            u == (ModelUpdate::CountChanged { count: final(self).count }),
    {
        match action {
            Action::Increment => self.count = self.count + 1,
            Action::Decrement => self.count = self.count - 1,
        }
        ModelUpdate::CountChanged { count: self.count }
    }
}

/// The handle through which the view layer reaches the model.
#[derive(Debug)]
pub struct RmpModel {
    pub data_dir: String,
    pub model: Model,
}

impl RmpModel {
    pub open spec fn count(&self) -> i32 {
        self.model.count
    }

    pub fn new(data_dir: String) -> (r: RmpModel)
        ensures
            r.data_dir == data_dir,
            r.count() == 0,
    {
        let model = Model::create(data_dir.clone());
        RmpModel { data_dir, model }
    }

    /// Applies `action` to the model and returns the update to publish.
    pub fn action(&mut self, action: Action) -> (u: ModelUpdate)
        requires
            action_fits(old(self).count(), action),
        ensures
            final(self).count() == old(self).count() + delta(action),
            final(self).data_dir == old(self).data_dir,
            u == (ModelUpdate::CountChanged { count: final(self).count() }),
    {
        self.model.action(action)
    }

    pub fn get_count(&self) -> (c: i32)
        ensures
            c == self.count(),
    {
        self.model.count
    }
}

} // verus!
