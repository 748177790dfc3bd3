//! How the service registry is laid out in redis, and how the records are
//! read back from it. Each service is stored as four consecutive values:
//! id, service group, live type, url.
use vstd::prelude::*;
use crate::const_file::{CHUNK_SIZE_BY_REDIS_DATA, LIVE_TYPE_FALSE, LIVE_TYPE_TRUE, SERVER_HEARBEAT_URL};
use crate::data::{service_views, ServiceMsg, ServiceMsgView};
use crate::grpc_errors::GrpcErrors;
use crate::text::views;

verus! {

/// Details of the error raised when the values read from redis do not fill
/// whole records.
pub const CHUNK_MISMATCH: &'static str = "Chunk pattern mismatch,the data is not right!!";

/// The records that the values `datas` make up, four values each.
pub open spec fn services_of(datas: Seq<Seq<char>>) -> Seq<ServiceMsgView> {
    Seq::new(
        datas.len() / 4,
        |i: int|
            ServiceMsgView {
                id: datas[4 * i],
                service_group: datas[4 * i + 1],
                live_type: datas[4 * i + 2],
                url: datas[4 * i + 3],
            },
    )
}

/// The values that store the records, four each, in order.
pub open spec fn redis_values_of(services: Seq<ServiceMsgView>) -> Seq<Seq<char>>
    decreases services.len(),
{
    if services.len() == 0 {
        Seq::<Seq<char>>::empty()
    } else {
        let s = services.last();
        redis_values_of(services.drop_last()) + seq![s.id, s.service_group, s.live_type, s.url]
    }
}

/// The records read from the values that redis holds for the registered
/// services: every four consecutive values make one record (id, service
/// group, live type, url). When the values do not fill whole records the
/// read fails with `GetDataFromRedisFailed`.
pub fn services_from_redis_data(datas: &Vec<String>) -> (res: Result<Vec<ServiceMsg>, GrpcErrors>)
    ensures
        res is Ok <==> datas.len() % 4 == 0,
        res matches Ok(v) ==> service_views(v@) == services_of(views(datas@)),
        res matches Err(e) ==> e == GrpcErrors::GetDataFromRedisFailed(CHUNK_MISMATCH),
        res matches Ok(v) ==> 4 * v.len() == datas.len() && forall|k: int|
            0 <= k < v.len() ==> #[trigger] v@[k].id@ == datas@[4 * k]@ && v@[k].service_group@
                == datas@[4 * k + 1]@ && v@[k].live_type@ == datas@[4 * k + 2]@ && v@[k].url@
                == datas@[4 * k + 3]@,
{
    let n = datas.len();
    let mut services: Vec<ServiceMsg> = Vec::new();
    let mut i: usize = 0;
    while i < n
        invariant
            n == datas.len(),
            i <= n,
            i % 4 == 0,
            services.len() == i / 4,
            forall|k: int|
                0 <= k < services.len() ==> #[trigger] service_views(services@)[k]
                    == services_of(views(datas@))[k],
        decreases n - i,
    {
        if n - i < CHUNK_SIZE_BY_REDIS_DATA {
            assert(n % 4 != 0);
            return Err(GrpcErrors::GetDataFromRedisFailed(CHUNK_MISMATCH));
        }
        let service = ServiceMsg {
            id: datas[i].clone(),
            service_group: datas[i + 1].clone(),
            live_type: datas[i + 2].clone(),
            url: datas[i + 3].clone(),
        };
        let ghost old_services = services@;
        services.push(service);
        proof {
            let k = (i / 4) as int;
            assert(4 * k == i);
            assert forall|j: int| 0 <= j < services.len() implies #[trigger] service_views(services@)[j]
                == services_of(views(datas@))[j] by {
                if j < k {
                    assert(services@[j] == old_services[j]);
                    assert(service_views(old_services)[j] == services_of(views(datas@))[j]);
                }
            }
        }
        i = i + CHUNK_SIZE_BY_REDIS_DATA;
    }
    assert(service_views(services@) =~= services_of(views(datas@)));
    assert forall|k: int| 0 <= k < services.len() implies #[trigger] services@[k].id@ == datas@[4
        * k]@ && services@[k].service_group@ == datas@[4 * k + 1]@ && services@[k].live_type@
        == datas@[4 * k + 2]@ && services@[k].url@ == datas@[4 * k + 3]@ by {
        assert(service_views(services@)[k] == services@[k]@);
        assert(services_of(views(datas@))[k].id == views(datas@)[4 * k]);
    }
    Ok(services)
}

/// Storing the records read from redis gives back the values that were
/// read: reading undoes storing, record for record.
pub proof fn lemma_redis_values_round_trip(datas: Seq<Seq<char>>)
    requires
        datas.len() % 4 == 0,
    ensures
        redis_values_of(services_of(datas)) == datas,
    decreases datas.len(),
{
    if datas.len() > 0 {
        let m = (datas.len() - 4) as int;
        let front = datas.subrange(0, m);
        lemma_redis_values_round_trip(front);
        assert(services_of(datas).drop_last() =~= services_of(front));
        let s = services_of(datas).last();
        assert(s.id == datas[m]);
        assert(datas =~= front + seq![datas[m], datas[m + 1], datas[m + 2], datas[m + 3]]);
    } else {
        assert(services_of(datas) =~= Seq::<ServiceMsgView>::empty());
    }
}

/// Reading the values that store some records gives those records back.
pub proof fn lemma_services_round_trip(services: Seq<ServiceMsgView>)
    ensures
        redis_values_of(services).len() == 4 * services.len(),
        services_of(redis_values_of(services)) == services,
    decreases services.len(),
{
    if services.len() > 0 {
        let init = services.drop_last();
        lemma_services_round_trip(init);
        let vals = redis_values_of(services);
        let m = 4 * init.len();
        assert forall|k: int| 0 <= k < services.len() implies #[trigger] services_of(vals)[k]
            == services[k] by {
            if k < init.len() {
                assert(vals[4 * k] == redis_values_of(init)[4 * k]);
                assert(vals[4 * k + 1] == redis_values_of(init)[4 * k + 1]);
                assert(vals[4 * k + 2] == redis_values_of(init)[4 * k + 2]);
                assert(vals[4 * k + 3] == redis_values_of(init)[4 * k + 3]);
                assert(services_of(redis_values_of(init))[k] == init[k]);
            } else {
                assert(4 * k == m);
            }
        }
        assert(services_of(vals) =~= services);
    } else {
        assert(services_of(Seq::<Seq<char>>::empty()) =~= services);
    }
}

/// The key pattern of the services of one group: the group, `:*`.
pub fn group_key_pattern(service_group_key: &str) -> (p: String)
    ensures
        p@ == service_group_key@ + seq![':', '*'],
{
    let mut p = service_group_key.to_string();
    p.append(":*");
    proof {
        reveal_strlit(":*");
    }
    p
}

/// The redis key of one service: its group, `:`, its id.
pub fn service_key(service_group: &str, id: &str) -> (k: String)
    ensures
        k@ == service_group@ + seq![':'] + id@,
{
    let mut k = service_group.to_string();
    k.append(":");
    k.append(id);
    proof {
        reveal_strlit(":");
    }
    k
}

/// The heartbeat address of a service: its url, `/heartbeat`.
pub fn heartbeat_url(url: &str) -> (u: String)
    ensures
        u@ == url@ + SERVER_HEARBEAT_URL@,
{
    let mut u = url.to_string();
    u.append(SERVER_HEARBEAT_URL);
    u
}

/// The value stored as a service's live type: `1` for alive, `0` for not.
pub fn live_type_value(flag: bool) -> (v: &'static str)
    ensures
        v@ == if flag {
            LIVE_TYPE_TRUE@
        } else {
            LIVE_TYPE_FALSE@
        },
{
    if flag {
        LIVE_TYPE_TRUE
    } else {
        LIVE_TYPE_FALSE
    }
}

/// How a service answered its heartbeat request.
#[derive(Clone, Copy, Debug, PartialEq, Eq, Structural)]
pub enum HeartbeatOutcome {
    /// It answered with a success status.
    Success,
    /// It answered with another status.
    OtherStatus,
    /// The request failed.
    RequestFailed,
}

/// A change of a service's live type in redis: the service's key and
/// whether it is alive.
pub struct LiveUpdate {
    pub key: String,
    pub alive: bool,
}

/// How one round of the heartbeat changes a service's live type: a success
/// marks it alive, a failed request marks it dead (both under the key
/// `<group>:<id>`), any other answer changes nothing.
pub fn heartbeat_update(service: &ServiceMsg, outcome: HeartbeatOutcome) -> (u: Option<LiveUpdate>)
    ensures
        match outcome {
            HeartbeatOutcome::OtherStatus => u is None,
            _ => u matches Some(up) && up.alive == (outcome == HeartbeatOutcome::Success)
                && up.key@ == service.service_group@ + seq![':'] + service.id@,
        },
{
    match outcome {
        HeartbeatOutcome::Success => Some(
            LiveUpdate { key: service_key(service.service_group.as_str(), service.id.as_str()), alive: true },
        ),
        HeartbeatOutcome::OtherStatus => None,
        HeartbeatOutcome::RequestFailed => Some(
            LiveUpdate { key: service_key(service.service_group.as_str(), service.id.as_str()), alive: false },
        ),
    }
}

} // verus!
