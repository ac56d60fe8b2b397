use microstore::combo::{Action, Backend, ComboError, ComboState, Event, Outcome};
use microstore::records::{Combo, Entity, MaybeCombo, PartialCombo, Property};
use microstore::service::{delete_record, get_record, post_record, Reply};
use microstore::store::AppState;

struct Stores {
    entities: AppState<Entity>,
    properties: AppState<Property>,
}

impl Stores {
    fn new() -> Self {
        Stores { entities: AppState::new(), properties: AppState::new() }
    }
}

fn s(v: &str) -> Option<String> {
    Some(v.to_string())
}

/// Carries out one backend call against in-memory stores.
fn serve(action: Action, name: &str, st: &mut Stores) -> Event {
    match action {
        Action::Fetch(Backend::Entity) => match get_record(&st.entities, name) {
            Reply::Found(e) => Event::Entity(e),
            r => Event::Status(r.status()),
        },
        Action::Fetch(Backend::Property) => match get_record(&st.properties, name) {
            Reply::Found(p) => Event::Property(p),
            r => Event::Status(r.status()),
        },
        Action::StoreEntity(e) => Event::Status(post_record(&mut st.entities, name, Some(e)).status()),
        Action::StoreProperty(p) => {
            Event::Status(post_record(&mut st.properties, name, Some(p)).status())
        }
        Action::Remove(Backend::Entity) => Event::Status(delete_record(&mut st.entities, name).status()),
        Action::Remove(Backend::Property) => {
            Event::Status(delete_record(&mut st.properties, name).status())
        }
        Action::Respond(_) => panic!("a finished request makes no call"),
    }
}

fn run(start: (ComboState, Action), name: &str, st: &mut Stores) -> Outcome {
    let (mut state, mut action) = start;
    loop {
        if let Action::Respond(o) = action {
            return o;
        }
        let event = serve(action, name, st);
        let (s, a) = state.step(event);
        state = s;
        action = a;
    }
}

fn seeded() -> Stores {
    let mut st = Stores::new();
    st.entities.set("x", &Entity::new("sun", "yellow"));
    st.properties.set("x", &Property::new("temp", "hot"));
    st
}

#[test]
fn combo_get_joins_entity_and_property() {
    let mut st = seeded();
    let o = run(ComboState::start_get(), "x", &mut st);
    assert_eq!(o, Outcome::Found(Combo::new("sun", "yellow", "temp", "hot")));
    assert_eq!(o.status(), 200);
}

#[test]
fn combo_get_missing_entity_is_not_found() {
    let mut st = Stores::new();
    let o = run(ComboState::start_get(), "missing", &mut st);
    assert_eq!(o, Outcome::Failed(ComboError::NotFound));
    assert_eq!(o.status(), 404);
    st.properties.set("missing", &Property::new("temp", "hot"));
    let o = run(ComboState::start_get(), "missing", &mut st);
    assert_eq!(o.status(), 404);
}

#[test]
fn combo_get_missing_property_is_not_found() {
    let mut st = Stores::new();
    st.entities.set("x", &Entity::new("sun", "yellow"));
    let o = run(ComboState::start_get(), "x", &mut st);
    assert_eq!(o.status(), 404);
}

#[test]
fn combo_get_upstream_failures() {
    let (state, _) = ComboState::start_get();
    let (_, a) = state.clone().step(Event::Unreachable);
    assert_eq!(a, Action::Respond(Outcome::Failed(ComboError::Upstream)));
    let (_, a) = state.clone().step(Event::Status(503));
    assert_eq!(a, Action::Respond(Outcome::Failed(ComboError::Upstream)));
    let (_, a) = state.step(Event::Status(200));
    assert_eq!(a, Action::Respond(Outcome::Failed(ComboError::Upstream)));
}

#[test]
fn combo_post_without_property_stores_empty_property() {
    let mut st = Stores::new();
    let body = MaybeCombo::new("a".to_string(), "b".to_string(), None, None);
    let o = run(ComboState::start_post(Some(body)), "n", &mut st);
    assert_eq!(o, Outcome::Created);
    assert_eq!(o.status(), 201);
    assert_eq!(st.entities.get("n"), Some(Entity::new("a", "b")));
    assert_eq!(st.properties.get("n"), Some(Property::new("", "")));
}

#[test]
fn combo_post_full_body() {
    let mut st = Stores::new();
    let body = MaybeCombo::new("a".to_string(), "b".to_string(), s("c"), s("d"));
    assert_eq!(run(ComboState::start_post(Some(body)), "n", &mut st), Outcome::Created);
    assert_eq!(st.properties.get("n"), Some(Property::new("c", "d")));
}

#[test]
fn combo_post_entity_failure_skips_property() {
    let body = MaybeCombo::new("a".to_string(), "b".to_string(), s("c"), s("d"));
    let (state, action) = ComboState::start_post(Some(body));
    assert_eq!(action, Action::StoreEntity(Entity::new("a", "b")));
    let (_, a) = state.step(Event::Status(500));
    assert_eq!(a, Action::Respond(Outcome::Failed(ComboError::Upstream)));
}

#[test]
fn combo_post_property_failure_reports_error() {
    let body = MaybeCombo::new("a".to_string(), "b".to_string(), None, None);
    let (state, _) = ComboState::start_post(Some(body));
    let (state, a) = state.step(Event::Status(201));
    assert_eq!(a, Action::StoreProperty(Property::default()));
    let (_, a) = state.step(Event::Unreachable);
    assert_eq!(a, Action::Respond(Outcome::Failed(ComboError::Upstream)));
}

#[test]
fn combo_bad_bodies_are_bad_requests() {
    let (_, a) = ComboState::start_post(None);
    assert_eq!(a, Action::Respond(Outcome::Failed(ComboError::BadRequest)));
    let (state, a) = ComboState::start_patch(None);
    assert_eq!(a, Action::Respond(Outcome::Failed(ComboError::BadRequest)));
    assert_eq!(ComboError::BadRequest.status(), 400);
    let (_, a) = state.step(Event::Unreachable);
    assert_eq!(a, Action::Respond(Outcome::Failed(ComboError::BadRequest)));
}

#[test]
fn combo_patch_merges_and_writes_both_halves() {
    let mut st = seeded();
    let patch = PartialCombo::new(None, s("green"), None, None);
    let o = run(ComboState::start_patch(Some(patch)), "x", &mut st);
    assert_eq!(o, Outcome::Updated(Combo::new("sun", "green", "temp", "hot")));
    assert_eq!(o.status(), 200);
    assert_eq!(st.entities.get("x"), Some(Entity::new("sun", "green")));
    assert_eq!(st.properties.get("x"), Some(Property::new("temp", "hot")));
}

#[test]
fn combo_patch_missing_property_uses_empty() {
    let mut st = Stores::new();
    st.entities.set("x", &Entity::new("sun", "yellow"));
    let patch = PartialCombo::new(None, None, s("temp"), None);
    let o = run(ComboState::start_patch(Some(patch)), "x", &mut st);
    assert_eq!(o, Outcome::Updated(Combo::new("sun", "yellow", "temp", "")));
    assert_eq!(st.properties.get("x"), Some(Property::new("temp", "")));
}

#[test]
fn combo_patch_missing_entity_is_upstream_failure() {
    let mut st = Stores::new();
    let patch = PartialCombo::new(None, s("green"), None, None);
    let o = run(ComboState::start_patch(Some(patch)), "x", &mut st);
    assert_eq!(o, Outcome::Failed(ComboError::Upstream));
    assert_eq!(o.status(), 500);
    assert_eq!(st.entities.get("x"), None);
}

#[test]
fn combo_delete_removes_both_and_always_succeeds() {
    let mut st = seeded();
    let o = run(ComboState::start_delete(), "x", &mut st);
    assert_eq!(o, Outcome::Deleted);
    assert_eq!(o.status(), 204);
    assert_eq!(st.entities.get("x"), None);
    assert_eq!(st.properties.get("x"), None);
    let (state, _) = ComboState::start_delete();
    let (state, a) = state.step(Event::Unreachable);
    assert_eq!(a, Action::Remove(Backend::Property));
    let (_, a) = state.step(Event::Status(500));
    assert_eq!(a, Action::Respond(Outcome::Deleted));
}

#[test]
fn combo_concurrent_patches_can_lose_an_update() {
    let mut st = seeded();
    let (mut a_state, mut a_act) = ComboState::start_patch(Some(PartialCombo::new(None, s("green"), None, None)));
    let (mut b_state, mut b_act) = ComboState::start_patch(Some(PartialCombo::new(None, None, None, s("cold"))));
    // Both read the entity and the property before either writes.
    for _ in 0..2 {
        let ev = serve(a_act, "x", &mut st);
        (a_state, a_act) = a_state.step(ev);
        let ev = serve(b_act, "x", &mut st);
        (b_state, b_act) = b_state.step(ev);
    }
    // The first finishes its two writes, then the second.
    while !matches!(a_act, Action::Respond(_)) {
        let ev = serve(a_act, "x", &mut st);
        (a_state, a_act) = a_state.step(ev);
    }
    while !matches!(b_act, Action::Respond(_)) {
        let ev = serve(b_act, "x", &mut st);
        (b_state, b_act) = b_state.step(ev);
    }
    assert_eq!(a_act, Action::Respond(Outcome::Updated(Combo::new("sun", "green", "temp", "hot"))));
    assert_eq!(b_act, Action::Respond(Outcome::Updated(Combo::new("sun", "yellow", "temp", "cold"))));
    // The first update's colour is lost: the second wrote its stale copy.
    assert_eq!(st.entities.get("x"), Some(Entity::new("sun", "yellow")));
    assert_eq!(st.properties.get("x"), Some(Property::new("temp", "cold")));
    let _ = (a_state, b_state);
}
