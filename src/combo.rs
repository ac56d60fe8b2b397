use vstd::prelude::*;
use crate::records::{
    empty_property, entity_part, given_property, join, property_part, Combo, ComboView, Entity,
    EntityView, MaybeCombo, Partial, PartialCombo, PartialComboView, Property, PropertyView,
    Record,
};

verus! {

/// One of the two services that a combined record is spread over.
#[derive(Debug, Clone, Copy, PartialEq, Eq, Structural)]
pub enum Backend {
    Entity,
    Property,
}

/// Why a request on a combined record failed.
#[derive(Debug, Clone, Copy, PartialEq, Eq, Structural)]
pub enum ComboError {
    /// The entity (or, on a read, the property) is not stored.
    NotFound,
    /// A backend could not be reached, answered with an unexpected status,
    /// or sent a body that did not decode.
    Upstream,
    /// The body of the request was not well formed.
    BadRequest,
}

impl ComboError {
    /// The HTTP status code that reports the error.
    pub fn status(&self) -> (r: u16)
        ensures
            r == match self {
                ComboError::NotFound => 404u16,
                ComboError::Upstream => 500u16,
                ComboError::BadRequest => 400u16,
            },
    {
        match self {
            ComboError::NotFound => 404,
            ComboError::Upstream => 500,
            ComboError::BadRequest => 400,
        }
    }
}

pub enum OutcomeView {
    Found(ComboView),
    Created,
    Updated(ComboView),
    Deleted,
    Failed(ComboError),
}

/// What a request on a combined record answers.
#[derive(Debug, Clone, PartialEq, Eq)]
pub enum Outcome {
    /// 200 with the joined record.
    Found(Combo),
    /// 201: both halves were stored.
    Created,
    /// 200 with the merged record, which both halves now hold.
    Updated(Combo),
    /// 204: both halves were asked to delete.
    Deleted,
    Failed(ComboError),
}

impl View for Outcome {
    type V = OutcomeView;

    open spec fn view(&self) -> OutcomeView {
        match self {
            Outcome::Found(c) => OutcomeView::Found(c@),
            Outcome::Created => OutcomeView::Created,
            Outcome::Updated(c) => OutcomeView::Updated(c@),
            Outcome::Deleted => OutcomeView::Deleted,
            Outcome::Failed(e) => OutcomeView::Failed(*e),
        }
    }
}

impl Record for Outcome {
    fn duplicate(&self) -> (r: Self) {
        match self {
            Outcome::Found(c) => Outcome::Found(c.duplicate()),
            Outcome::Created => Outcome::Created,
            Outcome::Updated(c) => Outcome::Updated(c.duplicate()),
            Outcome::Deleted => Outcome::Deleted,
            Outcome::Failed(e) => Outcome::Failed(*e),
        }
    }
}

impl Outcome {
    /// The HTTP status code of the answer.
    pub fn status(&self) -> (r: u16)
        ensures
            r == match self@ {
                OutcomeView::Found(_) => 200u16,
                OutcomeView::Created => 201u16,
                OutcomeView::Updated(_) => 200u16,
                OutcomeView::Deleted => 204u16,
                OutcomeView::Failed(ComboError::NotFound) => 404u16,
                OutcomeView::Failed(ComboError::Upstream) => 500u16,
                OutcomeView::Failed(ComboError::BadRequest) => 400u16,
            },
    {
        match self {
            Outcome::Found(_) => 200,
            Outcome::Created => 201,
            Outcome::Updated(_) => 200,
            Outcome::Deleted => 204,
            Outcome::Failed(e) => e.status(),
        }
    }
}

pub enum EventView {
    Unreachable,
    Status(u16),
    Entity(EntityView),
    Property(PropertyView),
}

/// What came back from the backend call that the last action asked for.
#[derive(Debug, Clone, PartialEq, Eq)]
pub enum Event {
    /// The request could not be sent, or no reply arrived.
    Unreachable,
    /// A reply with this status whose body is not a record: the reply to a
    /// write or a delete, a read that did not succeed, or a read answered
    /// with 200 whose body did not decode.
    Status(u16),
    /// A read answered with 200 and an entity.
    Entity(Entity),
    /// A read answered with 200 and a property.
    Property(Property),
}

impl View for Event {
    type V = EventView;

    open spec fn view(&self) -> EventView {
        match self {
            Event::Unreachable => EventView::Unreachable,
            Event::Status(s) => EventView::Status(*s),
            Event::Entity(e) => EventView::Entity(e@),
            Event::Property(p) => EventView::Property(p@),
        }
    }
}

pub enum ActionView {
    Fetch(Backend),
    StoreEntity(EntityView),
    StoreProperty(PropertyView),
    Remove(Backend),
    Respond(OutcomeView),
}

/// What the caller is to do next: one backend call, or the answer.
#[derive(Debug, Clone, PartialEq, Eq)]
pub enum Action {
    /// `GET` the record under the request's key from the backend.
    Fetch(Backend),
    /// `POST` this entity under the request's key to the entity service.
    StoreEntity(Entity),
    /// `POST` this property under the request's key to the property service.
    StoreProperty(Property),
    /// `DELETE` the record under the request's key from the backend.
    Remove(Backend),
    /// Answer the client; the request is over.
    Respond(Outcome),
}

impl View for Action {
    type V = ActionView;

    open spec fn view(&self) -> ActionView {
        match self {
            Action::Fetch(b) => ActionView::Fetch(*b),
            Action::StoreEntity(e) => ActionView::StoreEntity(e@),
            Action::StoreProperty(p) => ActionView::StoreProperty(p@),
            Action::Remove(b) => ActionView::Remove(*b),
            Action::Respond(o) => ActionView::Respond(o@),
        }
    }
}

pub enum ComboStateView {
    GetEntity,
    GetProperty(EntityView),
    PostEntity(PropertyView),
    PostProperty,
    PatchEntity(PartialComboView),
    PatchProperty(PartialComboView, EntityView),
    PatchStoreEntity(ComboView),
    PatchStoreProperty(ComboView),
    DeleteEntity,
    DeleteProperty,
    Done(OutcomeView),
}

/// Where a request on a combined record stands: which backend reply it
/// waits for, and what it has gathered so far.
#[derive(Debug, Clone, PartialEq, Eq)]
pub enum ComboState {
    /// A read waits for the entity.
    GetEntity,
    /// A read has the entity and waits for the property.
    GetProperty(Entity),
    /// A create waits for the entity write; this property is written next.
    PostEntity(Property),
    /// A create waits for the property write.
    PostProperty,
    /// An update waits for the stored entity.
    PatchEntity(PartialCombo),
    /// An update has the stored entity and waits for the stored property.
    PatchProperty(PartialCombo, Entity),
    /// An update waits for the write of the merged record's entity half.
    PatchStoreEntity(Combo),
    /// An update waits for the write of the merged record's property half.
    PatchStoreProperty(Combo),
    /// A delete waits for the entity service.
    DeleteEntity,
    /// A delete waits for the property service.
    DeleteProperty,
    /// The request is answered.
    Done(Outcome),
}

impl View for ComboState {
    type V = ComboStateView;

    open spec fn view(&self) -> ComboStateView {
        match self {
            ComboState::GetEntity => ComboStateView::GetEntity,
            ComboState::GetProperty(e) => ComboStateView::GetProperty(e@),
            ComboState::PostEntity(p) => ComboStateView::PostEntity(p@),
            ComboState::PostProperty => ComboStateView::PostProperty,
            ComboState::PatchEntity(p) => ComboStateView::PatchEntity(p@),
            ComboState::PatchProperty(p, e) => ComboStateView::PatchProperty(p@, e@),
            ComboState::PatchStoreEntity(c) => ComboStateView::PatchStoreEntity(c@),
            ComboState::PatchStoreProperty(c) => ComboStateView::PatchStoreProperty(c@),
            ComboState::DeleteEntity => ComboStateView::DeleteEntity,
            ComboState::DeleteProperty => ComboStateView::DeleteProperty,
            ComboState::Done(o) => ComboStateView::Done(o@),
        }
    }
}

// ------------------------------------------------------ the protocol, in spec

/// The request is over with this answer.
pub open spec fn finish(o: OutcomeView) -> (ComboStateView, ActionView) {
    (ComboStateView::Done(o), ActionView::Respond(o))
}

/// A failed request.
pub open spec fn fail(e: ComboError) -> (ComboStateView, ActionView) {
    finish(OutcomeView::Failed(e))
}

/// A read of the entity on `GET`: a missing entity is not found, anything
/// but a decoded entity is an upstream failure.
pub open spec fn entity_read(e: EventView) -> Result<EntityView, ComboError> {
    match e {
        EventView::Entity(v) => Ok(v),
        EventView::Status(s) => if s == 404 {
            Err(ComboError::NotFound)
        } else {
            Err(ComboError::Upstream)
        },
        _ => Err(ComboError::Upstream),
    }
}

/// A read of the property on `GET`: handled as the entity is.
pub open spec fn property_read(e: EventView) -> Result<PropertyView, ComboError> {
    match e {
        EventView::Property(v) => Ok(v),
        EventView::Status(s) => if s == 404 {
            Err(ComboError::NotFound)
        } else {
            Err(ComboError::Upstream)
        },
        _ => Err(ComboError::Upstream),
    }
}

/// A read of the property on `PATCH`: where the property service answers
/// with any status but 200, the empty property stands in; a 200 whose body
/// did not decode, or no reply, is an upstream failure.
pub open spec fn property_for_patch(e: EventView) -> Result<PropertyView, ComboError> {
    match e {
        EventView::Property(v) => Ok(v),
        EventView::Status(s) => if s == 200 {
            Err(ComboError::Upstream)
        } else {
            Ok(empty_property())
        },
        _ => Err(ComboError::Upstream),
    }
}

/// A write succeeded when its reply has a 2xx status.
pub open spec fn write_succeeded(e: EventView) -> bool {
    match e {
        EventView::Status(s) => 200 <= s < 300,
        _ => false,
    }
}

/// The property that a create request stores: the one it gives, or the
/// empty property where it leaves property or value out.
pub open spec fn property_to_create(m: crate::records::MaybeComboView) -> PropertyView {
    match given_property(m) {
        Some(p) => p,
        None => empty_property(),
    }
}

/// The next state and action of a request on a combined record, given the
/// reply to the call its last action made.
pub open spec fn next(s: ComboStateView, e: EventView) -> (ComboStateView, ActionView) {
    match s {
        ComboStateView::GetEntity => match entity_read(e) {
            Ok(ent) => (ComboStateView::GetProperty(ent), ActionView::Fetch(Backend::Property)),
            Err(x) => fail(x),
        },
        ComboStateView::GetProperty(ent) => match property_read(e) {
            Ok(p) => finish(OutcomeView::Found(join(ent, p))),
            Err(x) => fail(x),
        },
        ComboStateView::PostEntity(p) => if write_succeeded(e) {
            (ComboStateView::PostProperty, ActionView::StoreProperty(p))
        } else {
            fail(ComboError::Upstream)
        },
        ComboStateView::PostProperty => if write_succeeded(e) {
            finish(OutcomeView::Created)
        } else {
            fail(ComboError::Upstream)
        },
        ComboStateView::PatchEntity(patch) => match e {
            EventView::Entity(ent) => (
                ComboStateView::PatchProperty(patch, ent),
                ActionView::Fetch(Backend::Property),
            ),
            _ => fail(ComboError::Upstream),
        },
        ComboStateView::PatchProperty(patch, ent) => match property_for_patch(e) {
            Ok(p) => {
                let merged = PartialCombo::merged(patch, join(ent, p));
                (ComboStateView::PatchStoreEntity(merged), ActionView::StoreEntity(entity_part(merged)))
            },
            Err(x) => fail(x),
        },
        ComboStateView::PatchStoreEntity(merged) => if write_succeeded(e) {
            (
                ComboStateView::PatchStoreProperty(merged),
                ActionView::StoreProperty(property_part(merged)),
            )
        } else {
            fail(ComboError::Upstream)
        },
        ComboStateView::PatchStoreProperty(merged) => if write_succeeded(e) {
            finish(OutcomeView::Updated(merged))
        } else {
            fail(ComboError::Upstream)
        },
        ComboStateView::DeleteEntity => (
            ComboStateView::DeleteProperty,
            ActionView::Remove(Backend::Property),
        ),
        ComboStateView::DeleteProperty => finish(OutcomeView::Deleted),
        ComboStateView::Done(o) => finish(o),
    }
}

// ------------------------------------------------------ the protocol, in code

fn finish_with(o: Outcome) -> (r: (ComboState, Action))
    ensures
        (r.0@, r.1@) == finish(o@),
{
    (ComboState::Done(o.duplicate()), Action::Respond(o))
}

fn write_ok(event: &Event) -> (r: bool)
    ensures
        r == write_succeeded(event@),
{
    match event {
        Event::Status(s) => 200 <= *s && *s < 300,
        _ => false,
    }
}

impl ComboState {
    /// `GET /combo/{name}`: first the entity is read.
    pub fn start_get() -> (r: (ComboState, Action))
        ensures
            r.0@ == ComboStateView::GetEntity,
            r.1@ == ActionView::Fetch(Backend::Entity),
    {
        (ComboState::GetEntity, Action::Fetch(Backend::Entity))
    }

    /// `POST /combo/{name}`: first the entity half of the body is written;
    /// the property half, or the empty property, waits for its turn. A body
    /// that did not decode (`None`) is a bad request.
    pub fn start_post(body: Option<MaybeCombo>) -> (r: (ComboState, Action))
        ensures
            match body {
                Some(m) => {
                    &&& r.0@ == ComboStateView::PostEntity(property_to_create(m@))
                    &&& r.1@ == ActionView::StoreEntity(
                        EntityView { origin: m@.origin, colour: m@.colour },
                    )
                },
                None => (r.0@, r.1@) == fail(ComboError::BadRequest),
            },
    {
        match body {
            Some(m) => {
                let property = m.property_or_default();
                (ComboState::PostEntity(property), Action::StoreEntity(m.to_entity()))
            },
            None => finish_with(Outcome::Failed(ComboError::BadRequest)),
        }
    }

    /// `PATCH /combo/{name}`: first the stored entity is read. A body that
    /// did not decode (`None`) is a bad request.
    pub fn start_patch(body: Option<PartialCombo>) -> (r: (ComboState, Action))
        ensures
            match body {
                Some(p) => {
                    &&& r.0@ == ComboStateView::PatchEntity(p@)
                    &&& r.1@ == ActionView::Fetch(Backend::Entity)
                },
                None => (r.0@, r.1@) == fail(ComboError::BadRequest),
            },
    {
        match body {
            Some(p) => (ComboState::PatchEntity(p), Action::Fetch(Backend::Entity)),
            None => finish_with(Outcome::Failed(ComboError::BadRequest)),
        }
    }

    /// `DELETE /combo/{name}`: first the entity is deleted.
    pub fn start_delete() -> (r: (ComboState, Action))
        ensures
            r.0@ == ComboStateView::DeleteEntity,
            r.1@ == ActionView::Remove(Backend::Entity),
    {
        (ComboState::DeleteEntity, Action::Remove(Backend::Entity))
    }

    /// Takes the reply to the last action's call and gives the next state
    /// and action.
    pub fn step(self, event: Event) -> (r: (ComboState, Action))
        ensures
            (r.0@, r.1@) == next(self@, event@),
    {
        match self {
            ComboState::GetEntity => match event {
                Event::Entity(ent) => (ComboState::GetProperty(ent), Action::Fetch(Backend::Property)),
                Event::Status(s) => if s == 404 {
                    finish_with(Outcome::Failed(ComboError::NotFound))
                } else {
                    finish_with(Outcome::Failed(ComboError::Upstream))
                },
                _ => finish_with(Outcome::Failed(ComboError::Upstream)),
            },
            ComboState::GetProperty(ent) => match event {
                Event::Property(p) => finish_with(Outcome::Found(Combo::from_parts(&ent, &p))),
                Event::Status(s) => if s == 404 {
                    finish_with(Outcome::Failed(ComboError::NotFound))
                } else {
                    finish_with(Outcome::Failed(ComboError::Upstream))
                },
                _ => finish_with(Outcome::Failed(ComboError::Upstream)),
            },
            ComboState::PostEntity(p) => if write_ok(&event) {
                (ComboState::PostProperty, Action::StoreProperty(p))
            } else {
                finish_with(Outcome::Failed(ComboError::Upstream))
            },
            ComboState::PostProperty => if write_ok(&event) {
                finish_with(Outcome::Created)
            } else {
                finish_with(Outcome::Failed(ComboError::Upstream))
            },
            ComboState::PatchEntity(patch) => match event {
                Event::Entity(ent) => (
                    ComboState::PatchProperty(patch, ent),
                    Action::Fetch(Backend::Property),
                ),
                _ => finish_with(Outcome::Failed(ComboError::Upstream)),
            },
            ComboState::PatchProperty(patch, ent) => {
                let existing = match event {
                    Event::Property(p) => Ok(p),
                    Event::Status(s) => if s == 200 {
                        Err(ComboError::Upstream)
                    } else {
                        Ok(Property::default())
                    },
                    _ => Err(ComboError::Upstream),
                };
                match existing {
                    Ok(p) => {
                        let merged = patch.merge(&Combo::from_parts(&ent, &p));
                        let entity = merged.to_entity();
                        (ComboState::PatchStoreEntity(merged), Action::StoreEntity(entity))
                    },
                    Err(x) => finish_with(Outcome::Failed(x)),
                }
            },
            ComboState::PatchStoreEntity(merged) => if write_ok(&event) {
                let property = merged.to_property();
                (ComboState::PatchStoreProperty(merged), Action::StoreProperty(property))
            } else {
                finish_with(Outcome::Failed(ComboError::Upstream))
            },
            ComboState::PatchStoreProperty(merged) => if write_ok(&event) {
                finish_with(Outcome::Updated(merged))
            } else {
                finish_with(Outcome::Failed(ComboError::Upstream))
            },
            ComboState::DeleteEntity => (ComboState::DeleteProperty, Action::Remove(Backend::Property)),
            ComboState::DeleteProperty => finish_with(Outcome::Deleted),
            ComboState::Done(o) => finish_with(o),
        }
    }
}

// ------------------------------------------------------------------- laws

/// A read of a stored entity and property asks for the entity, then the
/// property, and answers 200 with their join.
pub proof fn lemma_get_joins(ent: EntityView, prop: PropertyView)
    ensures
        ({
            let (s1, a1) = next(ComboStateView::GetEntity, EventView::Entity(ent));
            let (s2, a2) = next(s1, EventView::Property(prop));
            &&& a1 == ActionView::Fetch(Backend::Property)
            &&& a2 == ActionView::Respond(OutcomeView::Found(join(ent, prop)))
        }),
{
}

/// A read whose entity is absent answers 404 at once: the property service
/// is not asked, so what it holds makes no difference.
pub proof fn lemma_get_without_entity()
    ensures
        next(ComboStateView::GetEntity, EventView::Status(404)) == fail(ComboError::NotFound),
{
}

/// A create that leaves property or value out writes the entity, then the
/// empty property, and answers 201 once both writes succeed.
pub proof fn lemma_post_defaults_property(
    body: crate::records::MaybeComboView,
    entity_write: u16,
    property_write: u16,
)
    requires
        body.property.is_none() || body.value.is_none(),
        200 <= entity_write < 300,
        200 <= property_write < 300,
    ensures
        ({
            let (s1, a1) = next(
                ComboStateView::PostEntity(property_to_create(body)),
                EventView::Status(entity_write),
            );
            let (s2, a2) = next(s1, EventView::Status(property_write));
            &&& property_to_create(body) == empty_property()
            &&& a1 == ActionView::StoreProperty(empty_property())
            &&& a2 == ActionView::Respond(OutcomeView::Created)
        }),
{
}

/// An update of an existing combined record reads both halves, writes the
/// merged record's entity half and property half in full, and answers 200
/// with the merged record: each field given in the update, every other
/// field as it was stored.
pub proof fn lemma_patch_writes_merged(
    patch: PartialComboView,
    ent: EntityView,
    prop: PropertyView,
    entity_write: u16,
    property_write: u16,
)
    requires
        200 <= entity_write < 300,
        200 <= property_write < 300,
    ensures
        ({
            let merged = PartialCombo::merged(patch, join(ent, prop));
            let (s1, a1) = next(ComboStateView::PatchEntity(patch), EventView::Entity(ent));
            let (s2, a2) = next(s1, EventView::Property(prop));
            let (s3, a3) = next(s2, EventView::Status(entity_write));
            let (s4, a4) = next(s3, EventView::Status(property_write));
            &&& a1 == ActionView::Fetch(Backend::Property)
            &&& a2 == ActionView::StoreEntity(entity_part(merged))
            &&& a3 == ActionView::StoreProperty(property_part(merged))
            &&& a4 == ActionView::Respond(OutcomeView::Updated(merged))
            &&& merged.origin == (match patch.origin {
                Some(v) => v,
                None => ent.origin,
            })
            &&& merged.colour == (match patch.colour {
                Some(v) => v,
                None => ent.colour,
            })
            &&& merged.property == (match patch.property {
                Some(v) => v,
                None => prop.property,
            })
            &&& merged.value == (match patch.value {
                Some(v) => v,
                None => prop.value,
            })
        }),
{
}

} // verus!
