//! Service configuration and the authorization policy.
//!
//! Exactly two privileged identities exist: the owner (`devin_id`), who may
//! read and write, and the viewer (`trin_id`), who may only read.  Every
//! other identity is unauthorized for every operation.

use vstd::prelude::*;
use crate::identity::Identity;

verus! {

/// Abstract value of the configuration.
#[verifier::ext_equal]
pub ghost struct ConfigView {
    pub jwt_secret: Seq<char>,
    pub devin_id: Identity,
    pub trin_id: Identity,
}

/// What the service is started with: the token-signing secret and the two
/// privileged identities.  The core consumes these; it does not load them.
pub struct Config {
    pub jwt_secret: String,
    pub devin_id: Identity,
    pub trin_id: Identity,
}

impl View for Config {
    type V = ConfigView;

    open spec fn view(&self) -> ConfigView {
        ConfigView { jwt_secret: self.jwt_secret@, devin_id: self.devin_id, trin_id: self.trin_id }
    }
}

/// The identity may read: it is the owner or the viewer.
pub open spec fn spec_can_read(config: ConfigView, id: Identity) -> bool {
    id == config.devin_id || id == config.trin_id
}

/// The identity may write: it is the owner alone.
pub open spec fn spec_can_write(config: ConfigView, id: Identity) -> bool {
    id == config.devin_id
}

impl Config {
    /// Whether `id` may invoke the read operations.
    pub fn can_read(&self, id: Identity) -> (r: bool)
        ensures
            r == spec_can_read(self@, id),
    {
        id == self.devin_id || id == self.trin_id
    }

    /// Whether `id` may invoke the write operation.
    pub fn can_write(&self, id: Identity) -> (r: bool)
        ensures
            r == spec_can_write(self@, id),
    {
        id == self.devin_id
    }

    /// A value copy of the configuration.
    pub fn duplicate(&self) -> (r: Self)
        ensures
            r@ == self@,
    {
        Config {
            jwt_secret: self.jwt_secret.clone(),
            devin_id: self.devin_id,
            trin_id: self.trin_id,
        }
    }
}

/// Write privilege implies read privilege, and the viewer can never write:
/// the policy has exactly the two tiers.
pub proof fn lemma_policy_tiers(config: ConfigView, id: Identity)
    ensures
        spec_can_write(config, id) ==> spec_can_read(config, id),
        id == config.trin_id && id != config.devin_id ==> spec_can_read(config, id)
            && !spec_can_write(config, id),
{
}

} // verus!
