//! Kafka settings of the push servers and of the consumers.
use vstd::prelude::*;
use rdkafka::config::ClientConfig;
use crate::const_file::{ACKS, AUTO_OFFSET_RESET, GROUP_ID, KAFKA_CLUSER_IP, KAFKA_CLUSER_PORTS, SECURITY_PROTOCOL};
use crate::text::{free_of, join_texts, join_with, lemma_split_join, split_on, views};

verus! {

#[verifier::external_type_specification]
#[verifier::external_body]
pub struct ExClientConfig(rdkafka::config::ClientConfig);

/// The settings that a kafka client configuration holds, by name.
pub uninterp spec fn kafka_config_entries(c: ClientConfig) -> Map<Seq<char>, Seq<char>>;

/// A configuration with no settings.
pub open spec fn no_settings() -> Map<Seq<char>, Seq<char>> {
    Map::empty()
}

/// `rdkafka::config::ClientConfig::new`: a configuration with no settings.
#[verifier::external_body]
fn new_client_config() -> (c: ClientConfig)
    ensures
        kafka_config_entries(c) == no_settings(),
{
    ClientConfig::new()
}

/// `rdkafka::config::ClientConfig::set`: sets `key` to `value`, replacing
/// any earlier value of `key`.
#[verifier::external_body]
fn config_set(c: &mut ClientConfig, key: &str, value: &str)
    ensures
        kafka_config_entries(*final(c)) == kafka_config_entries(*old(c)).insert(key@, value@),
{
    c.set(key, value);
}

/// Tools for the kafka cluster's addresses.
pub struct KafkaTools;

/// Builds the configuration of the push servers' kafka producer.
pub struct ProducerTools;

/// Builds the configuration of the kafka consumers.
pub struct ConsumerTools;

/// The views of a sequence of texts.
pub open spec fn str_views(v: Seq<&str>) -> Seq<Seq<char>> {
    v.map_values(|s: &str| s@)
}

/// The broker list of a cluster: `<ip>:<port>` for each port, joined by
/// commas.
pub open spec fn bootstrap_servers_of(ip: Seq<char>, ports: Seq<Seq<char>>) -> Seq<char> {
    join_with(broker_urls(ip, ports), seq![','])
}

/// `<ip>:<port>` for each port.
pub open spec fn broker_urls(ip: Seq<char>, ports: Seq<Seq<char>>) -> Seq<Seq<char>> {
    ports.map_values(|p: Seq<char>| ip + seq![':'] + p)
}

/// The broker list of the cluster that the push system uses.
pub open spec fn cluster_bootstrap_servers() -> Seq<char> {
    bootstrap_servers_of(KAFKA_CLUSER_IP@, str_views(KAFKA_CLUSER_PORTS@))
}

impl KafkaTools {
    /// The broker list of the brokers at `ip` on `ports`:
    /// `<ip>:<port>` for each port, in order, joined by commas.
    pub fn get_bootstrap_servers(ip: &str, ports: Vec<&str>) -> (s: String)
        ensures
            s@ == bootstrap_servers_of(ip@, str_views(ports@)),
            ports.len() == 0 ==> s@.len() == 0,
            free_of(ip@, ',') && ports.len() >= 1 && (forall|i: int|
                0 <= i < ports.len() ==> free_of(#[trigger] ports@[i]@, ',')) ==> split_on(s@, ',').len()
                == ports.len() && forall|i: int|
                0 <= i < ports.len() ==> #[trigger] split_on(s@, ',')[i] == ip@ + seq![':'] + ports@[i]@,
    {
        let mut urls: Vec<String> = Vec::new();
        let n = ports.len();
        let mut i: usize = 0;
        while i < n
            invariant
                n == ports.len(),
                i <= n,
                views(urls@) == broker_urls(ip@, str_views(ports@).take(i as int)),
            decreases n - i,
        {
            let mut url = ip.to_string();
            url.append(":");
            url.append(ports[i]);
            proof {
                reveal_strlit(":");
                assert(":"@ =~= seq![':']);
            }
            assert(url@ == ip@ + seq![':'] + ports@[i as int]@);
            assert(str_views(ports@).take(i + 1)[i as int] == ports@[i as int]@);
            let ghost before = views(urls@);
            urls.push(url);
            assert(views(urls@) =~= before.push(url@));
            assert(broker_urls(ip@, str_views(ports@).take(i + 1)) =~= broker_urls(
                ip@,
                str_views(ports@).take(i as int),
            ).push(url@));
            i += 1;
        }
        assert(str_views(ports@).take(n as int) =~= str_views(ports@));
        let s = join_texts(&urls, ",");
        proof {
            reveal_strlit(",");
            assert(","@ =~= seq![',']);
            let pv = str_views(ports@);
            if free_of(ip@, ',') && ports.len() >= 1 && (forall|i: int|
                0 <= i < ports.len() ==> free_of(#[trigger] ports@[i]@, ',')) {
                assert forall|i: int| 0 <= i < pv.len() implies free_of(#[trigger] pv[i], ',') by {
                    assert(pv[i] == ports@[i]@);
                }
                lemma_bootstrap_servers_split(ip@, pv);
                assert forall|i: int| 0 <= i < ports.len() implies #[trigger] split_on(s@, ',')[i]
                    == ip@ + seq![':'] + ports@[i]@ by {
                    assert(broker_urls(ip@, pv)[i] == ip@ + seq![':'] + pv[i]);
                }
            }
        }
        s
    }

    /// The cluster's ports, in order.
    pub fn cluster_ports() -> (v: Vec<&'static str>)
        ensures
            v@ == KAFKA_CLUSER_PORTS@,
    {
        let mut v: Vec<&'static str> = Vec::new();
        let mut i: usize = 0;
        while i < 3
            invariant
                i <= 3,
                v@ == KAFKA_CLUSER_PORTS@.take(i as int),
            decreases 3 - i,
        {
            v.push(KAFKA_CLUSER_PORTS[i]);
            assert(v@ =~= KAFKA_CLUSER_PORTS@.take(i + 1));
            i += 1;
        }
        assert(v@ =~= KAFKA_CLUSER_PORTS@);
        v
    }
}

impl ProducerTools {
    /// The configuration of the push servers' producer: the cluster's
    /// brokers, and acknowledgement by all replicas.
    pub fn client_config() -> (c: ClientConfig)
        ensures
            kafka_config_entries(c) == no_settings().insert(
                "bootstrap.servers"@,
                cluster_bootstrap_servers(),
            ).insert("acks"@, ACKS@),
    {
        let servers = KafkaTools::get_bootstrap_servers(KAFKA_CLUSER_IP, KafkaTools::cluster_ports());
        let mut c = new_client_config();
        config_set(&mut c, "bootstrap.servers", servers.as_str());
        config_set(&mut c, "acks", ACKS);
        c
    }
}

impl ConsumerTools {
    /// The configuration of a consumer: the cluster's brokers, its group,
    /// its security protocol, and reading from the earliest offset.
    pub fn client_config() -> (c: ClientConfig)
        ensures
            kafka_config_entries(c) == no_settings().insert(
                "bootstrap.servers"@,
                cluster_bootstrap_servers(),
            ).insert("group.id"@, GROUP_ID@).insert("security.protocol"@, SECURITY_PROTOCOL@).insert(
                "auto.offset.reset"@,
                AUTO_OFFSET_RESET@,
            ),
    {
        let servers = KafkaTools::get_bootstrap_servers(KAFKA_CLUSER_IP, KafkaTools::cluster_ports());
        let mut c = new_client_config();
        config_set(&mut c, "bootstrap.servers", servers.as_str());
        config_set(&mut c, "group.id", GROUP_ID);
        config_set(&mut c, "security.protocol", SECURITY_PROTOCOL);
        config_set(&mut c, "auto.offset.reset", AUTO_OFFSET_RESET);
        c
    }
}

/// A client that splits the broker list on commas gets back
/// `<ip>:<port>` for each port, when neither the address nor a port holds a
/// comma.
pub proof fn lemma_bootstrap_servers_split(ip: Seq<char>, ports: Seq<Seq<char>>)
    requires
        ports.len() >= 1,
        free_of(ip, ','),
        forall|i: int| 0 <= i < ports.len() ==> free_of(#[trigger] ports[i], ','),
    ensures
        split_on(bootstrap_servers_of(ip, ports), ',') == broker_urls(ip, ports),
{
    let urls = broker_urls(ip, ports);
    assert forall|i: int| 0 <= i < urls.len() implies free_of(#[trigger] urls[i], ',') by {
        assert(urls[i] == ip + seq![':'] + ports[i]);
        assert(free_of(ports[i], ','));
    }
    lemma_split_join(urls, ',');
}

} // verus!
