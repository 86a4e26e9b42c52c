//! The validated pieces of the process configuration that the directory's
//! collaborators read. Loading and parsing the configuration file is the
//! embedding program's business; these are the plain values it hands over.

use vstd::prelude::*;

verus! {

/// What the bot presents itself as doing.
#[derive(Default, Debug, Clone, PartialEq, Eq)]
pub struct Activity {
    /// The activity kind, as the configuration file spells it.
    pub type_field: String,
    /// The activity description shown to members.
    pub description: String,
}

/// Where the persistent document store lives.
#[derive(Default, Debug, Clone, PartialEq, Eq)]
pub struct Firestore {
    /// The store's project identifier.
    pub project_id: String,
    /// The credentials file handed to the store's client.
    pub key_filename: String,
}

/// The embedded web endpoint.
#[derive(Default, Debug, Clone, PartialEq, Eq)]
pub struct Express {
    /// The port the endpoint listens on.
    pub port: i64,
}

/// Credentials for auxiliary services.
#[derive(Default, Debug, Clone, PartialEq, Eq)]
pub struct Keys {
    /// The spreadsheet service key.
    pub sheets: String,
}

/// Where the points subsystem posts and who runs it.
#[derive(Default, Debug, Clone, PartialEq, Eq)]
pub struct Points {
    pub private_channel: String,
    pub public_channel: String,
    pub staff_role: String,
    pub firebase_root: String,
}

/// The channels that fixed messages go to.
#[derive(Default, Debug, Clone, PartialEq, Eq)]
pub struct Channels {
    pub verification: String,
    pub error: String,
    pub shoutout: String,
    pub roles: String,
    pub mod_field: String,
}

/// The roles the server relies on.
#[derive(Default, Debug, Clone, PartialEq, Eq)]
pub struct Roles {
    pub member: String,
    pub staff: String,
    pub director: String,
    pub mute: String,
    pub divisions: Divisions,
}

/// The division roles.
#[derive(Default, Debug, Clone, PartialEq, Eq)]
pub struct Divisions {
    pub projects: String,
    pub education: String,
    pub hackutd: String,
}

} // verus!
