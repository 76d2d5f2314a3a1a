//! Client properties for reaching the cluster.

use vstd::prelude::*;
use rdkafka::ClientConfig;

verus! {

#[verifier::external_type_specification]
#[verifier::external_body]
pub struct ExClientConfig(ClientConfig);

/// The properties set on a client configuration, by name.
pub uninterp spec fn config_entries(c: ClientConfig) -> Map<Seq<char>, Seq<char>>;

/// Relies on `rdkafka::ClientConfig::new`: no property is set.
#[verifier::external_body]
fn new_client_config() -> (r: ClientConfig)
    ensures
        config_entries(r).dom() == Set::<Seq<char>>::empty(),
{
    ClientConfig::new()
}

/// Relies on `rdkafka::ClientConfig::set`: the property `key` now has `value`,
/// the others are kept.
#[verifier::external_body]
fn set_property(c: &mut ClientConfig, key: &str, value: &str)
    ensures
        config_entries(*final(c)) == config_entries(*old(c)).insert(key@, value@),
{
    c.set(key, value);
}

/// The properties of a client: the bootstrap servers, and with IAM
/// authentication, SASL over SSL with OAUTHBEARER tokens.
pub open spec fn client_properties(bootstrap_servers: Seq<char>, iam_auth: bool) -> Map<Seq<char>, Seq<char>> {
    let base = map![].insert("bootstrap.servers"@, bootstrap_servers);
    if iam_auth {
        base.insert("security.protocol"@, "sasl_ssl"@).insert("sasl.mechanisms"@, "OAUTHBEARER"@)
    } else {
        base
    }
}

/// The client configuration for a cluster.
pub fn create_config(bootstrap_servers: String, iam_auth: bool) -> (r: ClientConfig)
    ensures
        config_entries(r) == client_properties(bootstrap_servers@, iam_auth),
{
    let mut config = new_client_config();
    assert(config_entries(config) =~= map![]);
    set_property(&mut config, "bootstrap.servers", bootstrap_servers.as_str());
    if iam_auth {
        set_property(&mut config, "security.protocol", "sasl_ssl");
        set_property(&mut config, "sasl.mechanisms", "OAUTHBEARER");
    }
    config
}

} // verus!
