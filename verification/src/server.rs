//! The management service's data model and its computational rules: the
//! records it stores, the public URL a deployment is served under, and the
//! folding of an uploaded multipart form into a new deployment record. The
//! service's HTTP endpoints, database round trips and archive handling are
//! collaborators outside the core.

use vstd::prelude::*;
use vstd::string::StringExecFns;

use crate::strutil::str_eq;

verus! {

/// The management service's runtime configuration, delivered already parsed
/// from the command line. The hosting directory is carried as its textual
/// path.
pub struct Config {
    pub bind: String,
    pub port: u16,
    pub https: bool,
    pub deployment_url_root: String,
    pub worker_threads: usize,
    pub hosting_dir: String,
}

/// A stored static-deployment row.
pub struct StaticDeployment {
    pub id: i32,
    pub name: String,
    pub subdomain: String,
}

/// A static-deployment row about to be inserted.
#[derive(Debug)]
pub struct NewStaticDeployment {
    pub name: String,
    pub subdomain: String,
}

/// The outward description of a deployment: its name and the public URL it is
/// served under.
pub struct DeploymentDescriptor {
    pub name: String,
    pub url: String,
}

/// The store message that inserts one new static deployment.
pub struct CreateStaticDeployment(pub NewStaticDeployment);

/// The store message that asks for every static deployment.
pub struct ListAllStaticDeployments;

/// The public URL a deployment is served under: scheme by the TLS choice,
/// then the subdomain as a host label under the configured root, then a
/// trailing slash.
pub open spec fn deployment_url(https: bool, subdomain: Seq<char>, root: Seq<char>) -> Seq<char> {
    "http"@ + (if https {
        "s"@
    } else {
        Seq::<char>::empty()
    }) + "://"@ + subdomain + "."@ + root + "/"@
}

/// Builds the public URL of a deployment from the configured scheme and root.
pub fn get_deployment_url(config: &Config, subdomain: &str) -> (r: String)
    ensures
        r@ == deployment_url(config.https, subdomain@, config.deployment_url_root@),
{
    let mut r = "http".to_owned();
    if config.https {
        r.append("s");
    }
    r.append("://");
    r.append(subdomain);
    r.append(".");
    r.append(config.deployment_url_root.as_str());
    r.append("/");
    r
}

impl DeploymentDescriptor {
    /// The description of one stored row: the row's name under its public URL.
    pub fn from_deployment(config: &Config, deployment: StaticDeployment) -> (d: Self)
        ensures
            d.name@ == deployment.name@,
            d.url@ == deployment_url(
                config.https,
                deployment.subdomain@,
                config.deployment_url_root@,
            ),
    {
        let url = get_deployment_url(config, deployment.subdomain.as_str());
        DeploymentDescriptor { name: deployment.name, url }
    }
}

/// Describes every stored row, in order: the computational half of answering
/// a listing request, once the store has returned the rows.
pub fn descriptors_from_deployments(config: &Config, deployments: Vec<StaticDeployment>) -> (r:
    Vec<DeploymentDescriptor>)
    ensures
        r@.len() == deployments@.len(),
        forall|i: int|
            0 <= i < r@.len() ==> r@[i].name@ == deployments@[i].name@ && r@[i].url@
                == deployment_url(
                config.https,
                deployments@[i].subdomain@,
                config.deployment_url_root@,
            ),
{
    let mut out: Vec<DeploymentDescriptor> = Vec::new();
    let mut i: usize = 0;
    while i < deployments.len()
        invariant
            0 <= i <= deployments@.len(),
            out@.len() == i,
            forall|k: int|
                0 <= k < i ==> out@[k].name@ == deployments@[k].name@ && out@[k].url@
                    == deployment_url(
                    config.https,
                    deployments@[k].subdomain@,
                    config.deployment_url_root@,
                ),
        decreases deployments@.len() - i,
    {
        let d = &deployments[i];
        let url = get_deployment_url(config, d.subdomain.as_str());
        out.push(DeploymentDescriptor { name: d.name.clone(), url });
        i = i + 1;
    }
    out
}

/// The rejection a malformed upload form gets: some required part is missing.
pub open spec fn missing_key_text() -> Seq<char> {
    "Invalid request; missing key in multipart payload"@
}

/// Whether a multipart field carries the archive payload rather than a text
/// tag: the payload arrives under the form name `file`.
pub fn field_is_payload(field_name: &str) -> (r: bool)
    ensures
        r == (field_name@ == "file"@),
{
    str_eq(field_name, "file")
}

/// An upload form in the middle of being folded: the text tags seen so far
/// and whether the archive payload has arrived.
pub struct IncompleteNewDeployment {
    pub name: Option<String>,
    pub subdomain: Option<String>,
    pub has_file: bool,
}

impl IncompleteNewDeployment {
    /// The fold's starting point: nothing seen yet.
    pub fn empty() -> (d: Self)
        ensures
            d.name is None,
            d.subdomain is None,
            !d.has_file,
    {
        IncompleteNewDeployment { name: None, subdomain: None, has_file: false }
    }

    /// Folds one text tag into the form: `name` and `subdomain` fill their
    /// slots, a later tag overriding an earlier one; a tag under any other
    /// key is dropped.
    pub fn apply_tag(&mut self, key: &str, value: String)
        ensures
            key@ == "name"@ ==> final(self).name == Some(value) && final(self).subdomain == old(
                self,
            ).subdomain && final(self).has_file == old(self).has_file,
            key@ != "name"@ && key@ == "subdomain"@ ==> final(self).subdomain == Some(value)
                && final(self).name == old(self).name && final(self).has_file == old(
                self,
            ).has_file,
            key@ != "name"@ && key@ != "subdomain"@ ==> *final(self) == *old(self),
    {
        if str_eq(key, "name") {
            self.name = Some(value);
        } else if str_eq(key, "subdomain") {
            self.subdomain = Some(value);
        }
    }

    /// Folds the archive payload's arrival into the form.
    pub fn note_file(&mut self)
        ensures
            final(self).has_file,
            final(self).name == old(self).name,
            final(self).subdomain == old(self).subdomain,
    {
        self.has_file = true;
    }

    /// Closes the fold: a form with both tags and the payload becomes the row
    /// to insert; anything less is rejected with the missing-key text.
    pub fn finish(self) -> (r: Result<NewStaticDeployment, String>)
        ensures
            self.name is Some && self.subdomain is Some && self.has_file ==> (r matches Ok(d)
                && d.name == self.name->0 && d.subdomain == self.subdomain->0),
            self.name is None || self.subdomain is None || !self.has_file ==> (r matches Err(e)
                && e@ == missing_key_text()),
    {
        if !self.has_file {
            return Err("Invalid request; missing key in multipart payload".to_owned());
        }
        match (self.name, self.subdomain) {
            (Some(name), Some(subdomain)) => Ok(NewStaticDeployment { name, subdomain }),
            _ => Err("Invalid request; missing key in multipart payload".to_owned()),
        }
    }
}

} // verus!
