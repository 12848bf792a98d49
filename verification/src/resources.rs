//! The resources that the server offers.

use vstd::prelude::*;
use crate::protocol::{distinct_uris, resource_views, Resource, ResourceView};

verus! {

/// The media type of every resource that the server offers.
pub const JSON_MIME_TYPE: &'static str = "application/json";

/// The resource at `uri` with the given name and description, as a value.
pub open spec fn described(uri: Seq<char>, name: Seq<char>, description: Seq<char>) -> ResourceView {
    ResourceView { uri, name, description: Some(description), mime_type: Some(JSON_MIME_TYPE@) }
}

/// The collections of the production database.
pub open spec fn aviladb_resources() -> Seq<ResourceView> {
    seq![
        described(
            "aviladb://production/users"@,
            "Users Database"@,
            "Production user database collection"@,
        ),
        described(
            "aviladb://production/events"@,
            "Events Database"@,
            "Production events collection"@,
        ),
    ]
}

/// The configuration of the stack and of its mesh.
pub open spec fn avx_config_resources() -> Seq<ResourceView> {
    seq![
        described("avx://config/stack"@, "AVX Stack Config"@, "Current stack configuration"@),
        described("avx://config/mesh"@, "AVX Mesh Config"@, "Service mesh configuration"@),
    ]
}

/// The clusters.
pub open spec fn cluster_resources() -> Seq<ResourceView> {
    seq![
        described(
            "avx://cluster/production"@,
            "Production Cluster"@,
            "Production Kubernetes cluster"@,
        ),
        described("avx://cluster/staging"@, "Staging Cluster"@, "Staging Kubernetes cluster"@),
    ]
}

/// Every resource that the server offers: the database collections, then the
/// configuration, then the clusters.
pub open spec fn all_resources() -> Seq<ResourceView> {
    aviladb_resources() + avx_config_resources() + cluster_resources()
}

/// The server offers six resources, and no two of them have the same address.
pub proof fn lemma_all_resources_distinct()
    ensures
        all_resources().len() == 6,
        distinct_uris(all_resources()),
{
    reveal_strlit("aviladb://production/users");
    reveal_strlit("aviladb://production/events");
    reveal_strlit("avx://config/stack");
    reveal_strlit("avx://config/mesh");
    reveal_strlit("avx://cluster/production");
    reveal_strlit("avx://cluster/staging");
    let all = all_resources();
    assert(all[0].uri.len() == 26);
    assert(all[1].uri.len() == 27);
    assert(all[2].uri.len() == 18);
    assert(all[3].uri.len() == 17);
    assert(all[4].uri.len() == 24);
    assert(all[5].uri.len() == 21);
}

fn pair(first: Resource, second: Resource) -> (both: Vec<Resource>)
    ensures
        resource_views(both@) == seq![first@, second@],
{
    let mut both: Vec<Resource> = Vec::new();
    both.push(first);
    both.push(second);
    assert(resource_views(both@) =~= seq![first@, second@]);
    both
}

/// The collections of the production database.
pub fn get_aviladb_resources() -> (resources: Vec<Resource>)
    ensures
        resource_views(resources@) == aviladb_resources(),
{
    pair(
        Resource::new(
            "aviladb://production/users",
            "Users Database",
            "Production user database collection",
            JSON_MIME_TYPE,
        ),
        Resource::new(
            "aviladb://production/events",
            "Events Database",
            "Production events collection",
            JSON_MIME_TYPE,
        ),
    )
}

/// The configuration of the stack and of its mesh.
pub fn get_avx_config_resources() -> (resources: Vec<Resource>)
    ensures
        resource_views(resources@) == avx_config_resources(),
{
    pair(
        Resource::new(
            "avx://config/stack",
            "AVX Stack Config",
            "Current stack configuration",
            JSON_MIME_TYPE,
        ),
        Resource::new(
            "avx://config/mesh",
            "AVX Mesh Config",
            "Service mesh configuration",
            JSON_MIME_TYPE,
        ),
    )
}

/// The clusters.
pub fn get_cluster_resources() -> (resources: Vec<Resource>)
    ensures
        resource_views(resources@) == cluster_resources(),
{
    pair(
        Resource::new(
            "avx://cluster/production",
            "Production Cluster",
            "Production Kubernetes cluster",
            JSON_MIME_TYPE,
        ),
        Resource::new(
            "avx://cluster/staging",
            "Staging Cluster",
            "Staging Kubernetes cluster",
            JSON_MIME_TYPE,
        ),
    )
}

/// Every resource that the server offers: the database collections, then the
/// configuration, then the clusters.
pub fn get_all_resources() -> (resources: Vec<Resource>)
    ensures
        resource_views(resources@) == all_resources(),
{
    let mut resources = get_aviladb_resources();
    let mut config = get_avx_config_resources();
    let mut clusters = get_cluster_resources();
    let ghost first = resources@;
    let ghost second = config@;
    let ghost third = clusters@;
    resources.append(&mut config);
    resources.append(&mut clusters);
    assert(resource_views(resources@) =~= resource_views(first) + resource_views(second)
        + resource_views(third));
    resources
}

} // verus!
