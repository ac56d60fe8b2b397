use vstd::prelude::*;
use vstd::string::*;
use crate::combo::Backend;

verus! {

/// What `str::to_uppercase` makes of a string.
pub uninterp spec fn upper_of(s: Seq<char>) -> Seq<char>;

/// Relies on str::to_uppercase: the upper-case form, which depends on the
/// characters alone.
#[verifier::external_body]
fn uppercase(s: &str) -> (r: String)
    ensures
        r@ == upper_of(s@),
{
    s.to_uppercase()
}

/// The port a service listens on where its configuration names none.
pub const DEFAULT_PORT: &'static str = "8080";

fn joined(a: &str, b: &str) -> (r: String)
    ensures
        r@ == a@ + b@,
{
    let mut s = String::from_str(a);
    s.append(b);
    s
}

/// The configuration key of a service's port: `<SERVICE>_PORT`.
pub fn port_key(service: &str) -> (r: String)
    ensures
        r@ == upper_of(service@ + "_port"@),
{
    uppercase(joined(service, "_port").as_str())
}

/// The configuration key of a service's host name: `<SERVICE>_ADDRESS`.
pub fn address_key(service: &str) -> (r: String)
    ensures
        r@ == upper_of(service@ + "_address"@),
{
    uppercase(joined(service, "_address").as_str())
}

/// A service's port: the configured one, else the default port.
pub fn get_port_for_service(configured: Option<String>) -> (r: String)
    ensures
        match configured {
            Some(p) => r@ == p@,
            None => r@ == DEFAULT_PORT@,
        },
{
    match configured {
        Some(p) => p,
        None => String::from_str(DEFAULT_PORT),
    }
}

/// A service's host name: the configured one, else the service's own name,
/// left to the platform's name resolution.
pub fn get_canonical_name_for_service(service: &str, configured: Option<String>) -> (r: String)
    ensures
        match configured {
            Some(a) => r@ == a@,
            None => r@ == service@,
        },
{
    match configured {
        Some(a) => a,
        None => String::from_str(service),
    }
}

/// The base address of a service: `http://<host>:<port>`.
pub fn get_backing_addres(host: &str, port: &str) -> (r: String)
    ensures
        r@ == "http://"@ + host@ + ":"@ + port@,
{
    let mut s = String::from_str("http://");
    s.append(host);
    s.append(":");
    s.append(port);
    s
}

/// The path segment under which a backend keeps its records.
pub open spec fn resource_of(b: Backend) -> Seq<char> {
    match b {
        Backend::Entity => "entity"@,
        Backend::Property => "property"@,
    }
}

fn resource_name(b: Backend) -> (r: &'static str)
    ensures
        r@ == resource_of(b),
{
    match b {
        Backend::Entity => "entity",
        Backend::Property => "property",
    }
}

/// The base addresses of the two services behind the combined resource,
/// resolved once when the process starts.
pub struct Backends {
    entity: String,
    property: String,
}

impl Backends {
    pub closed spec fn base_of(&self, b: Backend) -> Seq<char> {
        match b {
            Backend::Entity => self.entity@,
            Backend::Property => self.property@,
        }
    }

    pub fn new(entity_address: String, property_address: String) -> (r: Self)
        ensures
            r.base_of(Backend::Entity) == entity_address@,
            r.base_of(Backend::Property) == property_address@,
    {
        Backends { entity: entity_address, property: property_address }
    }

    /// The address of the record under `name` at backend `b`:
    /// `<base>/<resource>/<name>`.
    pub fn url_for(&self, b: Backend, name: &str) -> (r: String)
        ensures
            r@ == self.base_of(b) + "/"@ + resource_of(b) + "/"@ + name@,
    {
        let mut s = match b {
            Backend::Entity => self.entity.clone(),
            Backend::Property => self.property.clone(),
        };
        s.append("/");
        s.append(resource_name(b));
        s.append("/");
        s.append(name);
        s
    }
}

} // verus!
