use microstore::records::{Entity, PartialEntity, PartialProperty, Property};
use microstore::service::{delete_record, get_record, patch_record, post_record, Reply};
use microstore::store::AppState;

fn s(v: &str) -> Option<String> {
    Some(v.to_string())
}

#[test]
fn set_then_get_returns_value() {
    let mut st: AppState<Entity> = AppState::new();
    assert_eq!(st.set("k", &Entity::new("sun", "yellow")), None);
    assert_eq!(st.get("k"), Some(Entity::new("sun", "yellow")));
}

#[test]
fn set_overwrites_and_returns_prior() {
    let mut st: AppState<Entity> = AppState::new();
    st.set("k", &Entity::new("a", "b"));
    assert_eq!(st.set("k", &Entity::new("c", "d")), Some(Entity::new("a", "b")));
    assert_eq!(st.get("k"), Some(Entity::new("c", "d")));
}

#[test]
fn get_absent_is_none() {
    let st: AppState<Property> = AppState::new();
    assert_eq!(st.get("nothing"), None);
}

#[test]
fn update_merges_present_fields_only() {
    let mut st: AppState<Entity> = AppState::new();
    st.set("k", &Entity::new("sun", "yellow"));
    let r = st.update("k", &PartialEntity::new(None, s("green")));
    assert_eq!(r, Some(Entity::new("sun", "green")));
    assert_eq!(st.get("k"), Some(Entity::new("sun", "green")));
}

#[test]
fn update_property_merges_both_fields() {
    let mut st: AppState<Property> = AppState::new();
    st.set("k", &Property::new("temp", "hot"));
    let r = st.update("k", &PartialProperty::new(s("mood"), s("calm")));
    assert_eq!(r, Some(Property::new("mood", "calm")));
    let r = st.update("k", &PartialProperty::new(None, None));
    assert_eq!(r, Some(Property::new("mood", "calm")));
}

#[test]
fn update_absent_key_is_noop() {
    let mut st: AppState<Entity> = AppState::new();
    st.set("other", &Entity::new("a", "b"));
    assert_eq!(st.update("k", &PartialEntity::new(s("x"), None)), None);
    assert_eq!(st.get("k"), None);
    assert_eq!(st.get("other"), Some(Entity::new("a", "b")));
}

#[test]
fn remove_returns_prior_then_absent() {
    let mut st: AppState<Entity> = AppState::new();
    st.set("k", &Entity::new("a", "b"));
    assert_eq!(st.rm("k"), Some(Entity::new("a", "b")));
    assert_eq!(st.get("k"), None);
    assert_eq!(st.rm("k"), None);
}

#[test]
fn service_get_found_and_not_found() {
    let mut st: AppState<Entity> = AppState::new();
    st.set("x", &Entity::new("sun", "yellow"));
    let r = get_record(&st, "x");
    assert_eq!(r.status(), 200);
    assert_eq!(r, Reply::Found(Entity::new("sun", "yellow")));
    let r = get_record(&st, "y");
    assert_eq!(r, Reply::NotFound);
    assert_eq!(r.status(), 404);
}

#[test]
fn service_post_created_or_bad_request() {
    let mut st: AppState<Property> = AppState::new();
    let r = post_record(&mut st, "x", Some(Property::new("temp", "hot")));
    assert_eq!(r, Reply::Created);
    assert_eq!(r.status(), 201);
    let r = post_record(&mut st, "x", None);
    assert_eq!(r.status(), 400);
    assert_eq!(st.get("x"), Some(Property::new("temp", "hot")));
}

#[test]
fn service_patch_statuses() {
    let mut st: AppState<Entity> = AppState::new();
    let r = patch_record(&mut st, "x", Some(PartialEntity::new(s("a"), None)));
    assert_eq!(r.status(), 404);
    assert_eq!(st.get("x"), None);
    st.set("x", &Entity::new("sun", "yellow"));
    let r = patch_record(&mut st, "x", Some(PartialEntity::new(s("moon"), None)));
    assert_eq!(r, Reply::NoContent);
    assert_eq!(r.status(), 204);
    assert_eq!(st.get("x"), Some(Entity::new("moon", "yellow")));
    let r = patch_record::<Entity, PartialEntity>(&mut st, "x", None);
    assert_eq!(r, Reply::BadRequest);
}

#[test]
fn service_delete_always_no_content() {
    let mut st: AppState<Entity> = AppState::new();
    st.set("x", &Entity::new("sun", "yellow"));
    assert_eq!(delete_record(&mut st, "x").status(), 204);
    assert_eq!(st.get("x"), None);
    assert_eq!(delete_record(&mut st, "x").status(), 204);
}

#[test]
fn default_store_is_empty() {
    let st: AppState<Property> = AppState::default();
    assert_eq!(st.get("x"), None);
}
