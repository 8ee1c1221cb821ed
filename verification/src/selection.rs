//! The catalogue of services and methods, and the cursor in it.

use vstd::prelude::*;

verus! {

/// A method of a service: its name and the request that a call starts from.
pub struct Method {
    pub name: String,
    pub template: String,
}

/// A service and its methods.
pub struct Service {
    pub name: String,
    pub methods: Vec<Method>,
}

/// Names a method of the catalogue by the place of its service and its own
/// place among the service's methods.
#[derive(Clone, Copy, Debug, PartialEq, Eq, Structural)]
pub struct MethodId {
    pub service: usize,
    pub method: usize,
}

/// The cursor after a step forward in a list of `len` items: from nothing to
/// the first item, from the last item back to the first. An empty list has
/// no cursor.
pub open spec fn step_forward(cursor: Option<usize>, len: nat) -> Option<usize> {
    if len == 0 {
        None
    } else {
        match cursor {
            Some(i) if i + 1 < len => Some((i + 1) as usize),
            _ => Some(0),
        }
    }
}

/// The cursor after a step backward: from nothing to the first item, from
/// the first item to the last.
pub open spec fn step_backward(cursor: Option<usize>, len: nat) -> Option<usize> {
    if len == 0 {
        None
    } else {
        match cursor {
            Some(i) if 0 < i <= len => Some((i - 1) as usize),
            Some(_) => Some((len - 1) as usize),
            None => Some(0),
        }
    }
}

fn forward(cursor: Option<usize>, len: usize) -> (next: Option<usize>)
    ensures
        next == step_forward(cursor, len as nat),
{
    if len == 0 {
        None
    } else {
        match cursor {
            Some(i) => if i < len - 1 {
                Some(i + 1)
            } else {
                Some(0)
            },
            None => Some(0),
        }
    }
}

fn backward(cursor: Option<usize>, len: usize) -> (prev: Option<usize>)
    ensures
        prev == step_backward(cursor, len as nat),
{
    if len == 0 {
        None
    } else {
        match cursor {
            Some(i) => if 0 < i && i <= len {
                Some(i - 1)
            } else {
                Some(len - 1)
            },
            None => Some(0),
        }
    }
}

/// The model of the selection page: the catalogue, the selected service
/// and, once the cursor went into the service, the selected method.
pub struct SelectionModel {
    pub services: Vec<Service>,
    pub service: Option<usize>,
    pub method: Option<usize>,
}

impl SelectionModel {
    /// Both cursors stand on items that exist, and there is a method cursor
    /// only inside a selected service.
    pub open spec fn wf(&self) -> bool {
        &&& self.service matches Some(s) ==> s < self.services@.len()
        &&& self.method matches Some(m) ==> self.service is Some && m < self.method_count()
    }

    /// The number of methods of the selected service.
    pub open spec fn method_count(&self) -> nat {
        match self.service {
            Some(s) => self.services@[s as int].methods@.len(),
            None => 0,
        }
    }

    /// The selected method, if the cursor stands on one.
    pub open spec fn chosen(&self) -> Option<MethodId> {
        match (self.service, self.method) {
            (Some(s), Some(m)) => Some(MethodId { service: s, method: m }),
            _ => None,
        }
    }

    /// Whether `id` names a method of the catalogue.
    pub open spec fn holds(&self, id: MethodId) -> bool {
        id.service < self.services@.len() && id.method
            < self.services@[id.service as int].methods@.len()
    }

    /// The template of the method that `id` names.
    pub open spec fn template_of(&self, id: MethodId) -> Seq<char> {
        self.services@[id.service as int].methods@[id.method as int].template@
    }

    /// The model with the service cursor at `service` and no method cursor.
    pub open spec fn at_service(&self, service: Option<usize>) -> SelectionModel {
        SelectionModel { service, method: None, ..*self }
    }

    /// The model with the method cursor at `method`.
    pub open spec fn at_method(&self, method: Option<usize>) -> SelectionModel {
        SelectionModel { method, ..*self }
    }

    /// The model with the cursor moved down the tree: to the next service
    /// while it stands on a service, to the next method while it stands on
    /// a method.
    pub open spec fn below(&self) -> SelectionModel {
        if self.method is None {
            self.at_service(step_forward(self.service, self.services@.len()))
        } else {
            self.at_method(step_forward(self.method, self.method_count()))
        }
    }

    /// The model with the cursor moved up the tree.
    pub open spec fn above(&self) -> SelectionModel {
        if self.method is None {
            self.at_service(step_backward(self.service, self.services@.len()))
        } else {
            self.at_method(step_backward(self.method, self.method_count()))
        }
    }

    /// The model with the selected service opened: the cursor on its first
    /// method. A cursor that is on a method already stays there.
    pub open spec fn opened(&self) -> SelectionModel {
        if self.method is None {
            self.at_method(step_forward(None, self.method_count()))
        } else {
            *self
        }
    }

    /// Tests whether both cursors stand on items that exist.
    pub fn is_consistent(&self) -> (ok: bool)
        ensures
            ok == self.wf(),
    {
        match self.service {
            Some(s) => if s >= self.services.len() {
                false
            } else {
                match self.method {
                    Some(m) => m < self.services[s].methods.len(),
                    None => true,
                }
            },
            None => self.method.is_none(),
        }
    }

    /// The model for a catalogue. The first service is selected, if there is
    /// one; no method is.
    pub fn new(services: Vec<Service>) -> (model: Self)
        ensures
            model.services == services,
            model.service == if services@.len() > 0 {
                Some(0usize)
            } else {
                None
            },
            model.method is None,
            model.wf(),
    {
        let service = if services.len() > 0 {
            Some(0)
        } else {
            None
        };
        SelectionModel { services, service, method: None }
    }

    /// Selects the next service, the first one after the last. The method
    /// cursor goes, since it belonged to the service that was left.
    pub fn next_service(&mut self)
        requires
            old(self).wf(),
        ensures
            *final(self) == old(self).at_service(
                step_forward(old(self).service, old(self).services@.len()),
            ),
            final(self).wf(),
    {
        self.service = forward(self.service, self.services.len());
        self.method = None;
    }

    /// Selects the previous service, the last one before the first.
    pub fn previous_service(&mut self)
        requires
            old(self).wf(),
        ensures
            *final(self) == old(self).at_service(
                step_backward(old(self).service, old(self).services@.len()),
            ),
            final(self).wf(),
    {
        self.service = backward(self.service, self.services.len());
        self.method = None;
    }

    fn count_methods(&self) -> (n: usize)
        requires
            self.wf(),
        ensures
            n == self.method_count(),
    {
        match self.service {
            Some(s) => self.services[s].methods.len(),
            None => 0,
        }
    }

    /// Selects the next method of the selected service: the first one where
    /// none was selected, and the first one after the last.
    pub fn next_method(&mut self)
        requires
            old(self).wf(),
        ensures
            *final(self) == old(self).at_method(
                step_forward(old(self).method, old(self).method_count()),
            ),
            final(self).wf(),
    {
        self.method = forward(self.method, self.count_methods());
    }

    /// Selects the previous method of the selected service.
    pub fn previous_method(&mut self)
        requires
            old(self).wf(),
        ensures
            *final(self) == old(self).at_method(
                step_backward(old(self).method, old(self).method_count()),
            ),
            final(self).wf(),
    {
        self.method = backward(self.method, self.count_methods());
    }

    /// Takes the method cursor away.
    pub fn clear_method(&mut self)
        ensures
            *final(self) == old(self).at_method(None),
            old(self).wf() ==> final(self).wf(),
    {
        self.method = None;
    }

    /// The selected method, if the cursor stands on one.
    pub fn selected_method(&self) -> (id: Option<MethodId>)
        ensures
            id == self.chosen(),
            self.wf() ==> (id matches Some(found) ==> self.holds(found)),
    {
        match (self.service, self.method) {
            (Some(s), Some(m)) => Some(MethodId { service: s, method: m }),
            _ => None,
        }
    }

    /// The template of a method of the catalogue.
    pub fn template(&self, id: MethodId) -> (template: &String)
        requires
            self.holds(id),
        ensures
            template@ == self.template_of(id),
    {
        &self.services[id.service].methods[id.method].template
    }

    /// Whether the cursor stands on a service rather than on one of its
    /// methods.
    pub fn is_parent_selected(&self) -> (parent: bool)
        ensures
            parent == (self.method is None),
    {
        self.method.is_none()
    }

    /// Moves the cursor down the tree: to the next service while it stands
    /// on a service, to the next method while it stands on a method.
    pub fn next(&mut self)
        requires
            old(self).wf(),
        ensures
            *final(self) == old(self).below(),
            final(self).wf(),
    {
        if self.method.is_none() {
            self.next_service();
        } else {
            self.next_method();
        }
    }

    /// Moves the cursor up the tree.
    pub fn previous(&mut self)
        requires
            old(self).wf(),
        ensures
            *final(self) == old(self).above(),
            final(self).wf(),
    {
        if self.method.is_none() {
            self.previous_service();
        } else {
            self.previous_method();
        }
    }

    /// Opens the selected service: the cursor goes to its first method. A
    /// cursor that is on a method already stays there.
    pub fn expand(&mut self)
        requires
            old(self).wf(),
        ensures
            *final(self) == old(self).opened(),
            final(self).wf(),
    {
        if self.method.is_none() {
            self.next_method();
        }
    }

    /// Closes the selected service: the cursor returns to the service.
    pub fn collapse(&mut self)
        ensures
            *final(self) == old(self).at_method(None),
            old(self).wf() ==> final(self).wf(),
    {
        self.method = None;
    }
}

} // verus!
