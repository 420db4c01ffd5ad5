use vstd::prelude::*;

verus! {

/// The names under which the assistant CLI is known. They all derive from
/// one product name, which the deployment supplies: the binary and the
/// agent type the peer sees are that name, the CLI's own system-prompt and
/// tool preset is `<name>_code`, and it reports its version under
/// `<name>_code_version` (camel-cased `<name>CodeVersion` towards the peer).
pub struct CliIdentity {
    pub agent_type: String,
    pub binary: String,
    pub preset: String,
    pub version_key: String,
    pub version_field: String,
}

fn joined2(a: &str, b: &str) -> (r: String)
    ensures
        r@ == a@ + b@,
{
    let mut s = String::from_str(a);
    s.append(b);
    s
}

impl CliIdentity {
    pub fn named(name: &str) -> (r: CliIdentity)
        ensures
            r.agent_type@ == name@,
            r.binary@ == name@,
            r.preset@ == name@ + "_code"@,
            r.version_key@ == name@ + "_code_version"@,
            r.version_field@ == name@ + "CodeVersion"@,
    {
        CliIdentity {
            agent_type: String::from_str(name),
            binary: String::from_str(name),
            preset: joined2(name, "_code"),
            version_key: joined2(name, "_code_version"),
            version_field: joined2(name, "CodeVersion"),
        }
    }
}

} // verus!
