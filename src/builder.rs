//! Entity builders: the full component set of one entity, staged before it
//! is written into a store.
use vstd::prelude::*;
use crate::entity::Entity;
use crate::model::BuilderModel;

verus! {

/// The marker component: it carries no data, its presence is the data.
#[derive(Clone, Copy, Debug, PartialEq, Eq, Structural, Default)]
pub struct Enabled;

/// A staging record: the target entity and one optional slot per component
/// kind.
pub struct MyEcsEntityBuilder<P, V, A> {
    entity: Entity,
    position: Option<P>,
    velocity: Option<V>,
    acceleration: Option<A>,
    enabled: Option<Enabled>,
}

impl<P, V, A> View for MyEcsEntityBuilder<P, V, A> {
    type V = BuilderModel<P, V, A>;

    closed spec fn view(&self) -> BuilderModel<P, V, A> {
        BuilderModel {
            entity: self.entity.id(),
            position: self.position,
            velocity: self.velocity,
            acceleration: self.acceleration,
            enabled: self.enabled is Some,
        }
    }
}

impl<P, V, A> MyEcsEntityBuilder<P, V, A> {
    /// The empty builder for `entity`.
    pub closed spec fn empty_for(entity: Entity) -> Self {
        MyEcsEntityBuilder {
            entity,
            position: None,
            velocity: None,
            acceleration: None,
            enabled: None,
        }
    }

    /// An empty builder for `entity`.
    pub fn new(entity: Entity) -> (r: Self)
        ensures
            r == Self::empty_for(entity),
            r@ == (BuilderModel::<P, V, A> {
                entity: entity.id(),
                position: None,
                velocity: None,
                acceleration: None,
                enabled: false,
            }),
    {
        MyEcsEntityBuilder {
            entity,
            position: None,
            velocity: None,
            acceleration: None,
            enabled: None,
        }
    }

    /// The target entity.
    pub fn entity(&self) -> (r: Entity)
        ensures
            r.id() == self@.entity,
    {
        self.entity
    }

    /// Takes the builder apart.
    pub(crate) fn take_parts(self) -> (r: (Entity, Option<P>, Option<V>, Option<A>, bool))
        ensures
            r.0.id() == self@.entity,
            r.1 == self@.position,
            r.2 == self@.velocity,
            r.3 == self@.acceleration,
            r.4 == self@.enabled,
    {
        (self.entity, self.position, self.velocity, self.acceleration, self.enabled.is_some())
    }

    /// Sets the component 'position'.
    pub fn position(self, value: P) -> (r: Self)
        ensures
            r@ == (BuilderModel { position: Some(value), ..self@ }),
    {
        MyEcsEntityBuilder { position: Some(value), ..self }
    }

    /// Sets the component 'position' in place.
    pub fn add_position(&mut self, value: P) -> (r: &mut Self)
        ensures
            (*r)@ == (BuilderModel { position: Some(value), ..old(self)@ }),
            *final(self) == *final(r),
    {
        self.position = Some(value);
        self
    }

    /// Clears the component 'position' in place.
    pub fn del_position(&mut self) -> (r: &mut Self)
        ensures
            (*r)@ == (BuilderModel { position: None, ..old(self)@ }),
            *final(self) == *final(r),
    {
        self.position = None;
        self
    }

    /// Sets the component 'velocity'.
    pub fn velocity(self, value: V) -> (r: Self)
        ensures
            r@ == (BuilderModel { velocity: Some(value), ..self@ }),
    {
        MyEcsEntityBuilder { velocity: Some(value), ..self }
    }

    /// Sets the component 'velocity' in place.
    pub fn add_velocity(&mut self, value: V) -> (r: &mut Self)
        ensures
            (*r)@ == (BuilderModel { velocity: Some(value), ..old(self)@ }),
            *final(self) == *final(r),
    {
        self.velocity = Some(value);
        self
    }

    /// Clears the component 'velocity' in place.
    pub fn del_velocity(&mut self) -> (r: &mut Self)
        ensures
            (*r)@ == (BuilderModel { velocity: None, ..old(self)@ }),
            *final(self) == *final(r),
    {
        self.velocity = None;
        self
    }

    /// Sets the component 'acceleration'.
    pub fn acceleration(self, value: A) -> (r: Self)
        ensures
            r@ == (BuilderModel { acceleration: Some(value), ..self@ }),
    {
        MyEcsEntityBuilder { acceleration: Some(value), ..self }
    }

    /// Sets the component 'acceleration' in place.
    pub fn add_acceleration(&mut self, value: A) -> (r: &mut Self)
        ensures
            (*r)@ == (BuilderModel { acceleration: Some(value), ..old(self)@ }),
            *final(self) == *final(r),
    {
        self.acceleration = Some(value);
        self
    }

    /// Clears the component 'acceleration' in place.
    pub fn del_acceleration(&mut self) -> (r: &mut Self)
        ensures
            (*r)@ == (BuilderModel { acceleration: None, ..old(self)@ }),
            *final(self) == *final(r),
    {
        self.acceleration = None;
        self
    }

    /// Sets the marker component 'enabled'.
    pub fn enabled(self, value: Enabled) -> (r: Self)
        ensures
            r@ == (BuilderModel { enabled: true, ..self@ }),
    {
        MyEcsEntityBuilder { enabled: Some(value), ..self }
    }

    /// Sets the marker component 'enabled' in place.
    pub fn add_enabled(&mut self, value: Enabled) -> (r: &mut Self)
        ensures
            (*r)@ == (BuilderModel { enabled: true, ..old(self)@ }),
            *final(self) == *final(r),
    {
        self.enabled = Some(value);
        self
    }

    /// Clears the marker component 'enabled' in place.
    pub fn del_enabled(&mut self) -> (r: &mut Self)
        ensures
            (*r)@ == (BuilderModel { enabled: false, ..old(self)@ }),
            *final(self) == *final(r),
    {
        self.enabled = None;
        self
    }
}

} // verus!
