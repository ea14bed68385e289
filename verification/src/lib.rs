//! A bridge between a DNS authority server's remote-backend protocol and a
//! reverse proxy's runtime routing API.  Given a DNS query (a type and a
//! domain), the resolver answers SOA/NS queries for the configured zones and
//! answers A/ANY queries by asking the proxy whether the domain is currently
//! routed, pointing the record at the proxy's address.

pub mod model;
pub mod resolver;
pub mod strutil;
pub mod traefik;
pub mod wire;
