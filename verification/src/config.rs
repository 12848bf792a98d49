//! The labels that the stack puts on what it deploys.

use vstd::prelude::*;
use crate::text::owned;

verus! {

/// The five labels of a deployment.
#[derive(Debug, Clone, PartialEq)]
pub struct AvxConfig {
    pub stack: String,
    pub layer: String,
    pub env: String,
    pub cluster: String,
    pub mesh: String,
}

/// The labels as a mathematical value.
pub struct ConfigView {
    pub stack: Seq<char>,
    pub layer: Seq<char>,
    pub env: Seq<char>,
    pub cluster: Seq<char>,
    pub mesh: Seq<char>,
}

impl View for AvxConfig {
    type V = ConfigView;

    open spec fn view(&self) -> ConfigView {
        ConfigView {
            stack: self.stack@,
            layer: self.layer@,
            env: self.env@,
            cluster: self.cluster@,
            mesh: self.mesh@,
        }
    }
}

/// The text that was given, or `default` where none was.
pub open spec fn given_or(given: Option<String>, default: Seq<char>) -> Seq<char> {
    match given {
        Some(text) => text@,
        None => default,
    }
}

fn take_or(given: Option<String>, default: &str) -> (text: String)
    ensures
        text@ == given_or(given, default@),
{
    match given {
        Some(text) => text,
        None => owned(default),
    }
}

impl ConfigView {
    /// The labels of a deployment for which none are given.
    pub open spec fn defaults() -> ConfigView {
        ConfigView {
            stack: "default"@,
            layer: "core"@,
            env: "dev"@,
            cluster: "local"@,
            mesh: "default"@,
        }
    }
}

impl AvxConfig {
    /// The labels of a deployment for which none are given.
    pub fn with_defaults() -> (config: AvxConfig)
        ensures
            config@ == ConfigView::defaults(),
    {
        AvxConfig {
            stack: owned("default"),
            layer: owned("core"),
            env: owned("dev"),
            cluster: owned("local"),
            mesh: owned("default"),
        }
    }

    /// The labels as the settings of a deployment give them: each argument is
    /// what is set for one label, and a label for which nothing is set takes
    /// its default.
    pub fn load(
        stack: Option<String>,
        layer: Option<String>,
        env: Option<String>,
        cluster: Option<String>,
        mesh: Option<String>,
    ) -> (config: AvxConfig)
        ensures
            config@ == (ConfigView {
                stack: given_or(stack, ConfigView::defaults().stack),
                layer: given_or(layer, ConfigView::defaults().layer),
                env: given_or(env, ConfigView::defaults().env),
                cluster: given_or(cluster, ConfigView::defaults().cluster),
                mesh: given_or(mesh, ConfigView::defaults().mesh),
            }),
    {
        AvxConfig {
            stack: take_or(stack, "default"),
            layer: take_or(layer, "core"),
            env: take_or(env, "dev"),
            cluster: take_or(cluster, "local"),
            mesh: take_or(mesh, "default"),
        }
    }
}

} // verus!
