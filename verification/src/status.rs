//! What a cluster says of the server that runs in it.

use vstd::prelude::*;

use crate::text::{decimal_int, decimal_of_int, same};

verus! {

/// The port under which the web interface is reached from outside.
pub const WEBUI_EXTERNAL_PORT: i32 = 3000;

/// The replicas that are wanted, that exist and that are ready, as far as the cluster says.
#[derive(Clone, Copy, Debug, PartialEq, Eq, Structural)]
pub struct Replicas {
    pub wanted: Option<i32>,
    pub existing: Option<i32>,
    pub ready: Option<i32>,
}

/// The server is ready: as many replicas as are wanted exist and are ready. One is wanted where
/// nothing else is said; what is not said to exist or to be ready, does not or is not.
pub open spec fn is_ready(r: Replicas) -> bool {
    r.ready.unwrap_or(0) >= r.wanted.unwrap_or(1) && r.existing.unwrap_or(0) >= r.wanted.unwrap_or(1)
}

/// Whether the server is ready; it is not where the cluster does not know it.
pub fn check_dragonfly_statefulset_status(found: Option<Replicas>) -> (r: bool)
    ensures
        r == (found matches Some(replicas) && is_ready(replicas)),
{
    match found {
        Some(replicas) => {
            let wanted: i32 = match replicas.wanted {
                Some(n) => n,
                None => 1,
            };
            let existing: i32 = match replicas.existing {
                Some(n) => n,
                None => 0,
            };
            let ready: i32 = match replicas.ready {
                Some(n) => n,
                None => 0,
            };
            ready >= wanted && existing >= wanted
        },
        None => false,
    }
}

/// A port of a service.
#[derive(Clone, Copy, Debug, PartialEq, Eq, Structural)]
pub struct ServicePort {
    pub port: i32,
    pub node_port: Option<i32>,
}

/// What is wanted of a service.
#[derive(Debug, PartialEq, Eq)]
pub struct ServiceSpec {
    pub kind: Option<String>,
    pub ports: Vec<ServicePort>,
}

/// A point at which a load balancer lets traffic in.
#[derive(Debug, PartialEq, Eq)]
pub struct Ingress {
    pub ip: Option<String>,
    pub hostname: Option<String>,
}

/// A service of the cluster, as far as the cluster says; `status` is none where it has no status,
/// and holds the points at which a load balancer lets traffic in.
#[derive(Debug, PartialEq, Eq)]
pub struct ServiceInfo {
    pub wanted: Option<ServiceSpec>,
    pub status: Option<Vec<Ingress>>,
}

/// The place of the port under which the web interface is reached.
pub open spec fn webui_port(ports: Seq<ServicePort>, from: int) -> Option<ServicePort>
    decreases ports.len() - from,
{
    if from < 0 || from >= ports.len() {
        None
    } else if ports[from].port == WEBUI_EXTERNAL_PORT {
        Some(ports[from])
    } else {
        webui_port(ports, from + 1)
    }
}

/// The address at which a load balancer lets traffic in: that of its first point.
pub open spec fn ingress_address(points: Seq<Ingress>) -> Option<Seq<char>> {
    if points.len() == 0 {
        None
    } else if points[0].ip is Some {
        points[0].ip.deep_view()
    } else {
        points[0].hostname.deep_view()
    }
}

/// The address of the web interface on a service with these properties.
pub open spec fn webui_url(wanted: ServiceSpec, points: Seq<Ingress>) -> Option<Seq<char>> {
    match webui_port(wanted.ports@, 0) {
        None => None,
        Some(port) => match wanted.kind.deep_view() {
            Some(kind) => if kind == "LoadBalancer"@ {
                match ingress_address(points) {
                    Some(address) => Some(
                        "http://"@ + address + ":"@ + decimal_int(WEBUI_EXTERNAL_PORT as int),
                    ),
                    None => None,
                }
            } else if kind == "NodePort"@ {
                match port.node_port {
                    Some(n) => Some("http://localhost:"@ + decimal_int(n as int)),
                    None => None,
                }
            } else {
                None
            },
            None => None,
        },
    }
}

/// The address of the web interface, by what the cluster says of its service: none where the
/// service is not known, or not reached from outside.
pub open spec fn webui_address(service: Option<ServiceInfo>) -> Result<
    Option<Seq<char>>,
    Seq<char>,
> {
    match service {
        None => Ok(None),
        Some(s) => match (s.wanted, s.status) {
            (None, _) => Err("Service 'tink-stack' has no spec"@),
            (Some(_), None) => Err("Service 'tink-stack' has no status"@),
            (Some(wanted), Some(points)) => Ok(webui_url(wanted, points@)),
        },
    }
}

fn find_webui_port(ports: &Vec<ServicePort>) -> (r: Option<ServicePort>)
    ensures
        r == webui_port(ports@, 0),
{
    let mut i: usize = 0;
    while i < ports.len()
        invariant
            i <= ports.len(),
            webui_port(ports@, 0) == webui_port(ports@, i as int),
        decreases ports.len() - i,
    {
        if ports[i].port == WEBUI_EXTERNAL_PORT {
            return Some(ports[i]);
        }
        i = i + 1;
    }
    None
}

fn url_of(wanted: &ServiceSpec, points: &Vec<Ingress>) -> (r: Option<String>)
    ensures
        r.deep_view() == webui_url(*wanted, points@),
{
    let port = match find_webui_port(&wanted.ports) {
        Some(p) => p,
        None => {
            return None;
        },
    };
    match &wanted.kind {
        Some(kind) => {
            if same(kind.as_str(), "LoadBalancer") {
                if points.len() == 0 {
                    return None;
                }
                let address = match &points[0].ip {
                    Some(ip) => ip.as_str(),
                    None => match &points[0].hostname {
                        Some(h) => h.as_str(),
                        None => {
                            return None;
                        },
                    },
                };
                Some(
                    "http://".to_owned().concat(address).concat(":").concat(
                        decimal_of_int(WEBUI_EXTERNAL_PORT as i64).as_str(),
                    ),
                )
            } else if same(kind.as_str(), "NodePort") {
                match port.node_port {
                    Some(n) => Some(
                        "http://localhost:".to_owned().concat(decimal_of_int(n as i64).as_str()),
                    ),
                    None => None,
                }
            } else {
                None
            }
        },
        None => None,
    }
}

/// The address of the web interface, by what the cluster says of its service.
pub fn get_webui_address(service: Option<ServiceInfo>) -> (r: Result<Option<String>, String>)
    ensures
        (match r {
            Ok(a) => Ok(a.deep_view()),
            Err(e) => Err(e@),
        }) == webui_address(service),
{
    match service {
        None => Ok(None),
        Some(s) => match s.wanted {
            None => Err("Service 'tink-stack' has no spec".to_owned()),
            Some(wanted) => match s.status {
                None => Err("Service 'tink-stack' has no status".to_owned()),
                Some(points) => Ok(url_of(&wanted, &points)),
            },
        },
    }
}

/// The server is ready exactly where as many replicas as are wanted exist and are ready; where nothing is
/// said, one is wanted and none is there.
pub proof fn readiness_counts_replicas(wanted: i32, existing: i32, ready: i32)
    ensures
        is_ready(
            Replicas { wanted: Some(wanted), existing: Some(existing), ready: Some(ready) },
        ) <==> ready >= wanted && existing >= wanted,
        is_ready(Replicas { wanted: None, existing: Some(existing), ready: Some(ready) }) <==> ready
            >= 1 && existing >= 1,
        is_ready(Replicas { wanted: Some(wanted), existing: None, ready: Some(ready) }) <==> ready
            >= wanted && wanted <= 0,
        is_ready(Replicas { wanted: Some(wanted), existing: Some(existing), ready: None }) <==>
            existing >= wanted && wanted <= 0,
{
}

/// The port of the web interface is the first with its number, wherever it stands.
pub proof fn webui_port_is_found(ports: Seq<ServicePort>, i: int)
    requires
        0 <= i < ports.len(),
        ports[i].port == WEBUI_EXTERNAL_PORT,
        forall|j: int| 0 <= j < i ==> (#[trigger] ports[j]).port != WEBUI_EXTERNAL_PORT,
    ensures
        webui_port(ports, 0) == Some(ports[i]),
{
    port_is_found_from(ports, i, 0);
}

proof fn port_is_found_from(ports: Seq<ServicePort>, i: int, from: int)
    requires
        0 <= from <= i < ports.len(),
        ports[i].port == WEBUI_EXTERNAL_PORT,
        forall|j: int| 0 <= j < i ==> (#[trigger] ports[j]).port != WEBUI_EXTERNAL_PORT,
    ensures
        webui_port(ports, from) == Some(ports[i]),
    decreases i - from,
{
    if from < i {
        assert(ports[from].port != WEBUI_EXTERNAL_PORT);
        port_is_found_from(ports, i, from + 1);
    }
}

/// A service behind a load balancer is reached at the address of the balancer, by number before by name;
/// one on the ports of the nodes at its port there; any other from nowhere outside.
pub proof fn webui_is_reached(wanted: ServiceSpec, points: Seq<Ingress>, i: int)
    requires
        0 <= i < wanted.ports@.len(),
        wanted.ports@[i].port == 3000,
        forall|j: int| 0 <= j < i ==> (#[trigger] wanted.ports@[j]).port != 3000,
    ensures
        ({
            let kind = wanted.kind.deep_view();
            let balanced = kind == Some("LoadBalancer"@);
            let on_nodes = kind == Some("NodePort"@);
            let url = webui_url(wanted, points);
            &&& balanced && points.len() > 0 ==> (points[0].ip matches Some(ip) ==> url == Some(
                "http://"@ + ip@ + ":3000"@,
            ))
            &&& balanced && points.len() > 0 && points[0].ip is None ==> (points[0].hostname
                matches Some(h) ==> url == Some("http://"@ + h@ + ":3000"@))
            &&& balanced && points.len() == 0 ==> url is None
            &&& on_nodes ==> (wanted.ports@[i].node_port matches Some(n) ==> url == Some(
                "http://localhost:"@ + decimal_int(n as int),
            ))
            &&& on_nodes && wanted.ports@[i].node_port is None ==> url is None
            &&& !balanced && !on_nodes ==> url is None
        }),
{
    webui_port_is_found(wanted.ports@, i);
    reveal_strlit("LoadBalancer");
    reveal_strlit("NodePort");
    assert("LoadBalancer"@.len() != "NodePort"@.len());
    reveal_strlit(":");
    reveal_strlit(":3000");
    reveal_with_fuel(crate::text::decimal, 5);
    assert(decimal_int(3000) =~= seq!['3', '0', '0', '0']);
    if points.len() > 0 && points[0].ip is Some {
        let a = points[0].ip->0@;
        assert("http://"@ + a + ":"@ + decimal_int(3000) =~= "http://"@ + a + ":3000"@);
    }
    if points.len() > 0 && points[0].hostname is Some {
        let a = points[0].hostname->0@;
        assert("http://"@ + a + ":"@ + decimal_int(3000) =~= "http://"@ + a + ":3000"@);
    }
}

} // verus!
