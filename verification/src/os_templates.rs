//! The templates by which operating systems are installed.

use vstd::prelude::*;

use crate::text::{
    held_is_a_part, is_part, nothing_is_replaced, replace, replaced, replaced_is_at_each_place,
    stands_at,
};
use crate::urls::{bare_host, parse_url_to_bare, url_host};

verus! {

/// The host name that templates are given, by the address that is set, which is `localhost` where
/// none is.
pub fn get_base_url_without_port(base_url: Option<&str>) -> (r: String)
    ensures
        r@ == (match base_url {
            Some(url) => bare_host(url@, url_host(url@)),
            None => bare_host("localhost"@, url_host("localhost"@)),
        }),
{
    match base_url {
        Some(url) => parse_url_to_bare(url),
        None => parse_url_to_bare("localhost"),
    }
}

/// A template with the host name in its places: wherever `base_url` stands in double braces, with a
/// space on either side.
pub open spec fn with_host(yaml: Seq<char>, base_url_bare: Seq<char>) -> Seq<char> {
    replaced(yaml, "{{ base_url }}"@, base_url_bare)
}

/// Puts the host name into its places in a template.
pub fn fix_metadata_urls(yaml: &str, base_url_bare: &str) -> (r: String)
    ensures
        r@ == with_host(yaml@, base_url_bare@),
{
    proof {
        reveal_strlit("{{ base_url }}");
    }
    replace(yaml, "{{ base_url }}", base_url_bare)
}

/// The path of a template: where the templates are installed, or in the working directory.
pub fn template_path(installed: bool, template_name: &str) -> (r: String)
    ensures
        r@ == (if installed {
            "/opt/dragonfly/os-templates/"@
        } else {
            "os-templates/"@
        }) + template_name@ + ".yml"@,
{
    let dir = if installed {
        "/opt/dragonfly/os-templates/"
    } else {
        "os-templates/"
    };
    dir.to_owned().concat(template_name).concat(".yml")
}

/// Whether a template is known to the cluster.
#[derive(Debug, PartialEq, Eq)]
pub enum TemplateLookup {
    Known,
    Unknown,
    Failed(String),
}

/// Whether a template is to be installed: where it is not known. Where that cannot be found out,
/// the error says so.
pub fn install_template(lookup: TemplateLookup) -> (r: Result<bool, String>)
    ensures
        (match r {
            Ok(b) => Ok(b),
            Err(e) => Err(e@),
        }) == (match lookup {
            TemplateLookup::Known => Ok(false),
            TemplateLookup::Unknown => Ok(true),
            TemplateLookup::Failed(e) => Err("Error checking for template: "@ + e@),
        }),
{
    match lookup {
        TemplateLookup::Known => Ok(false),
        TemplateLookup::Unknown => Ok(true),
        TemplateLookup::Failed(e) => Err(
            "Error checking for template: ".to_owned().concat(e.as_str()),
        ),
    }
}

/// The step at which the installation of a template failed.
#[derive(Clone, Copy, Debug, PartialEq, Eq, Structural)]
pub enum TemplateStep {
    Read,
    Parse,
    Create,
}

/// What is said where the installation of a template failed.
pub fn template_failure(step: TemplateStep, e: &str) -> (r: String)
    ensures
        r@ == (match step {
            TemplateStep::Read => "Failed to read template file: "@,
            TemplateStep::Parse => "Failed to parse template YAML: "@,
            TemplateStep::Create => "Failed to create template: "@,
        }) + e@,
{
    let start = match step {
        TemplateStep::Read => "Failed to read template file: ",
        TemplateStep::Parse => "Failed to parse template YAML: ",
        TemplateStep::Create => "Failed to create template: ",
    };
    start.to_owned().concat(e)
}

/// The host name is put into each of its places in a template, and nothing else is changed.
pub proof fn host_is_put_in_its_places(a: Seq<char>, b: Seq<char>, host: Seq<char>)
    requires
        forall|i: int|
            0 <= i < a.len() ==> !#[trigger] stands_at(
                a + "{{ base_url }}"@ + b,
                "{{ base_url }}"@,
                i,
            ),
    ensures
        with_host(a + "{{ base_url }}"@ + b, host) == a + host + with_host(b, host),
        !is_part("{{ base_url }}"@, b) ==> with_host(b, host) == b,
{
    reveal_strlit("{{ base_url }}");
    replaced_is_at_each_place(a, "{{ base_url }}"@, host, b);
    held_is_a_part(b, "{{ base_url }}"@);
    if !is_part("{{ base_url }}"@, b) {
        nothing_is_replaced(b, "{{ base_url }}"@, host);
    }
}

} // verus!
