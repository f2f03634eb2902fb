//! Validation rules for egg configuration values: the port-range policy of
//! user self-assigned allocations, the supported configuration-file parser
//! kinds, and the uniqueness rule for docker image lists.

use vstd::prelude::*;

verus! {

/// The parser applied to a server configuration file.
#[derive(Clone, Copy, Debug, PartialEq, Eq, Structural)]
pub enum ServerConfigurationFileParser {
    File,
    Yaml,
    Properties,
    Ini,
    Json,
    Xml,
    Toml,
}

/// The self-assignment policy for server port allocations.
#[derive(Clone, Copy, Debug, PartialEq, Eq, Structural)]
pub struct NestEggConfigAllocationsUserSelfAssign {
    pub enabled: bool,
    pub require_primary_allocation: bool,
    pub start_port: u16,
    pub end_port: u16,
}

impl Default for NestEggConfigAllocationsUserSelfAssign {
    /// Self-assignment starts disabled, over the ephemeral port range.
    fn default() -> (r: Self)
        ensures
            r == (NestEggConfigAllocationsUserSelfAssign {
                enabled: false,
                require_primary_allocation: true,
                start_port: 49152u16,
                end_port: 65535u16,
            }),
    {
        NestEggConfigAllocationsUserSelfAssign {
            enabled: false,
            require_primary_allocation: true,
            start_port: 49152,
            end_port: 65535,
        }
    }
}

impl NestEggConfigAllocationsUserSelfAssign {
    /// A usable port range sits above the well-known ports and runs
    /// upward.
    pub fn is_valid(&self) -> (r: bool)
        ensures
            r == (self.start_port < self.end_port && self.start_port >= 1024),
    {
        self.start_port < self.end_port && self.start_port >= 1024
    }
}

/// Allocation policy of an egg.
#[derive(Clone, Copy, Debug, PartialEq, Eq, Structural)]
pub struct NestEggConfigAllocations {
    pub user_self_assign: NestEggConfigAllocationsUserSelfAssign,
}

impl Default for NestEggConfigAllocations {
    fn default() -> (r: Self)
        ensures
            r.user_self_assign == (NestEggConfigAllocationsUserSelfAssign {
                enabled: false,
                require_primary_allocation: true,
                start_port: 49152u16,
                end_port: 65535u16,
            }),
    {
        NestEggConfigAllocations {
            user_self_assign: NestEggConfigAllocationsUserSelfAssign::default(),
        }
    }
}

/// Checks an egg's allocation policy: the self-assignment port range must
/// be well-formed.
pub fn validate_config_allocations(config_allocations: &NestEggConfigAllocations) -> (r: Result<
    (),
    String,
>)
    ensures
        r is Ok <==> (config_allocations.user_self_assign.start_port
            < config_allocations.user_self_assign.end_port
            && config_allocations.user_self_assign.start_port >= 1024),
{
    if config_allocations.user_self_assign.is_valid() {
        Ok(())
    } else {
        Err("port ranges must be 1024-65535 and start_port < end_port".to_owned())
    }
}

/// Checks a docker image list, given as `(name, image)` pairs: every image
/// reference must be unique.
pub fn validate_docker_images(docker_images: &Vec<(String, String)>) -> (r: Result<(), String>)
    ensures
        r is Ok <==> (forall|i: int, j: int|
            0 <= i < j < docker_images@.len() ==> docker_images@[i].1@ != docker_images@[j].1@),
        r matches Err(m) ==> (exists|i: int, j: int|
            #![trigger docker_images@[i], docker_images@[j]]
            0 <= i < j < docker_images@.len() && docker_images@[i].1@ == docker_images@[j].1@ && m@
                == "duplicate docker image: "@ + docker_images@[j].1@),
{
    let n: usize = docker_images.len();
    let mut i: usize = 0;
    while i < n
        invariant
            n == docker_images@.len(),
            i <= n,
            forall|a: int, b: int|
                0 <= a < b < docker_images@.len() && a < i ==> docker_images@[a].1@
                    != docker_images@[b].1@,
        decreases n - i,
    {
        let mut j: usize = i + 1;
        while j < n
            invariant
                n == docker_images@.len(),
                i < j <= n,
                i < n,
                forall|b: int| i < b < j ==> docker_images@[i as int].1@ != docker_images@[b].1@,
            decreases n - j,
        {
            if crate::strutil::str_eq(docker_images[i].1.as_str(), docker_images[j].1.as_str()) {
                let mut message: String = "duplicate docker image: ".to_owned();
                message.append(docker_images[j].1.as_str());
                proof {
                    assert(docker_images@[i as int].1@ == docker_images@[j as int].1@);
                }
                return Err(message);
            }
            j = j + 1;
        }
        i = i + 1;
    }
    Ok(())
}

} // verus!
