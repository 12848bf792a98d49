//! Kubernetes manifests for the services of the stack: one Deployment and one
//! Service, written as YAML text.

use vstd::prelude::*;
use vstd::string::StringExecFns;
use crate::config::{AvxConfig, ConfigView};
use crate::text::owned;

verus! {

/// The services that the stack deploys.
#[derive(Debug, Clone, Copy, PartialEq, Eq, Structural)]
pub enum ServiceKind {
    Gateway,
    ApiCore,
    Events,
}

impl ServiceKind {
    /// The name under which the service is deployed.
    pub open spec fn name_text(self) -> Seq<char> {
        match self {
            ServiceKind::Gateway => "avx-gateway"@,
            ServiceKind::ApiCore => "avx-api-core"@,
            ServiceKind::Events => "avx-events"@,
        }
    }

    /// The image that the service runs where none is given.
    pub open spec fn default_image_text(self) -> Seq<char> {
        match self {
            ServiceKind::Gateway => "ghcr.io/avilaops/avx-gateway:latest"@,
            ServiceKind::ApiCore => "ghcr.io/avilaops/avx-api-core:latest"@,
            ServiceKind::Events => "ghcr.io/avilaops/avx-events:latest"@,
        }
    }

    /// The port on which the container of the service listens.
    pub open spec fn container_port_number(self) -> nat {
        match self {
            ServiceKind::Gateway => 8080,
            ServiceKind::ApiCore => 8081,
            ServiceKind::Events => 8090,
        }
    }

    /// The port on which the cluster offers the service.
    pub open spec fn service_port_number(self) -> nat {
        80
    }

    /// The name under which the service is deployed.
    pub fn name(&self) -> (name: &'static str)
        ensures
            name@ == self.name_text(),
    {
        match self {
            ServiceKind::Gateway => "avx-gateway",
            ServiceKind::ApiCore => "avx-api-core",
            ServiceKind::Events => "avx-events",
        }
    }

    /// The image that the service runs where none is given.
    pub fn default_image(&self) -> (image: String)
        ensures
            image@ == self.default_image_text(),
    {
        match self {
            ServiceKind::Gateway => owned("ghcr.io/avilaops/avx-gateway:latest"),
            ServiceKind::ApiCore => owned("ghcr.io/avilaops/avx-api-core:latest"),
            ServiceKind::Events => owned("ghcr.io/avilaops/avx-events:latest"),
        }
    }

    /// The port on which the container of the service listens.
    pub fn container_port(&self) -> (port: u16)
        ensures
            port == self.container_port_number(),
    {
        match self {
            ServiceKind::Gateway => 8080,
            ServiceKind::ApiCore => 8081,
            ServiceKind::Events => 8090,
        }
    }

    /// The port on which the cluster offers the service.
    pub fn service_port(&self) -> (port: u16)
        ensures
            port == self.service_port_number(),
    {
        80
    }
}

/// The numeral of a number below ten.
pub open spec fn digit_text(d: nat) -> Seq<char> {
    if d == 0 {
        "0"@
    } else if d == 1 {
        "1"@
    } else if d == 2 {
        "2"@
    } else if d == 3 {
        "3"@
    } else if d == 4 {
        "4"@
    } else if d == 5 {
        "5"@
    } else if d == 6 {
        "6"@
    } else if d == 7 {
        "7"@
    } else if d == 8 {
        "8"@
    } else {
        "9"@
    }
}

/// A number in decimal notation: no sign, and no zero in front but for zero
/// itself.
pub open spec fn decimal_text(n: nat) -> Seq<char>
    decreases n,
{
    if n < 10 {
        digit_text(n)
    } else {
        decimal_text(n / 10) + digit_text(n % 10)
    }
}

fn digit(d: u64) -> (text: &'static str)
    requires
        d < 10,
    ensures
        text@ == digit_text(d as nat),
{
    if d == 0 {
        "0"
    } else if d == 1 {
        "1"
    } else if d == 2 {
        "2"
    } else if d == 3 {
        "3"
    } else if d == 4 {
        "4"
    } else if d == 5 {
        "5"
    } else if d == 6 {
        "6"
    } else if d == 7 {
        "7"
    } else if d == 8 {
        "8"
    } else {
        "9"
    }
}

/// A number in decimal notation.
pub fn decimal(n: u64) -> (text: String)
    ensures
        text@ == decimal_text(n as nat),
    decreases n,
{
    if n < 10 {
        owned(digit(n))
    } else {
        let mut text = decimal(n / 10);
        text.append(digit(n % 10));
        text
    }
}

/// The labels `app`, `stack` and `layer`, one to a line, each line after
/// `indent`.
pub open spec fn short_labels_text(indent: Seq<char>, name: Seq<char>, config: ConfigView) -> Seq<
    char,
> {
    indent + "app: "@ + name + "\n"@ + indent + "stack: "@ + config.stack + "\n"@ + indent
        + "layer: "@ + config.layer + "\n"@
}

/// The six labels of a deployment, one to a line, each line after `indent`.
pub open spec fn labels_text(indent: Seq<char>, name: Seq<char>, config: ConfigView) -> Seq<char> {
    short_labels_text(indent, name, config) + indent + "env: "@ + config.env + "\n"@ + indent
        + "cluster: "@ + config.cluster + "\n"@ + indent + "mesh: "@ + config.mesh + "\n"@
}

/// One entry of the environment of the container: the variable `variable`
/// with `value` in quotes.
pub open spec fn variable_text(variable: Seq<char>, value: Seq<char>) -> Seq<char> {
    "            - name: "@ + variable + "\n              value: \""@ + value + "\"\n"@
}

/// The environment of the container: the five labels, each under its
/// variable.
pub open spec fn environment_text(config: ConfigView) -> Seq<char> {
    variable_text("AVX__STACK"@, config.stack) + variable_text("AVX__LAYER"@, config.layer)
        + variable_text("AVX__ENV"@, config.env) + variable_text("AVX__CLUSTER"@, config.cluster)
        + variable_text("AVX__MESH"@, config.mesh)
}

/// The comment at the head of a manifest.
pub open spec fn header_text(config: ConfigView) -> Seq<char> {
    "# Generated by avx-cli - Avila Experience Fabric\n# Stack: "@ + config.stack + " | Layer: "@
        + config.layer + " | Cluster: "@ + config.cluster + "\n"@
}

/// The Deployment: `replicas` copies of one container that runs `image` and
/// listens on `port`.
pub open spec fn deployment_text(
    config: ConfigView,
    namespace: Seq<char>,
    name: Seq<char>,
    image: Seq<char>,
    replicas: nat,
    port: nat,
) -> Seq<char> {
    "---\napiVersion: apps/v1\nkind: Deployment\nmetadata:\n  name: "@ + name + "\n  namespace: "@
        + namespace + "\n  labels:\n"@ + labels_text("    "@, name, config)
        + "spec:\n  replicas: "@ + decimal_text(replicas)
        + "\n  selector:\n    matchLabels:\n      app: "@ + name
        + "\n  template:\n    metadata:\n      labels:\n"@ + labels_text("        "@, name, config)
        + "    spec:\n      containers:\n        - name: "@ + name + "\n          image: "@ + image
        + "\n          imagePullPolicy: IfNotPresent\n          ports:\n            - containerPort: "@
        + decimal_text(port) + "\n          env:\n"@ + environment_text(config)
        + "          resources:\n            requests:\n              cpu: \"100m\"\n              memory: \"128Mi\"\n            limits:\n              cpu: \"500m\"\n              memory: \"256Mi\"\n"@
}

/// The Service: it offers `port` inside the cluster and hands on to
/// `target_port` of the containers.
pub open spec fn service_text(
    config: ConfigView,
    namespace: Seq<char>,
    name: Seq<char>,
    port: nat,
    target_port: nat,
) -> Seq<char> {
    "---\napiVersion: v1\nkind: Service\nmetadata:\n  name: "@ + name + "\n  namespace: "@
        + namespace + "\n  labels:\n"@ + short_labels_text("    "@, name, config)
        + "spec:\n  type: ClusterIP\n  selector:\n    app: "@ + name
        + "\n  ports:\n    - name: http\n      port: "@ + decimal_text(port)
        + "\n      targetPort: "@ + decimal_text(target_port) + "\n"@
}

/// The image that a deployment runs: the one that was given, or that of the
/// service where none was.
pub open spec fn image_text(service: ServiceKind, image_override: Option<String>) -> Seq<char> {
    match image_override {
        Some(image) => image@,
        None => service.default_image_text(),
    }
}

/// The manifest of a service: the header, the Deployment and the Service.
pub open spec fn manifest_text(
    config: ConfigView,
    namespace: Seq<char>,
    service: ServiceKind,
    image: Seq<char>,
    replicas: nat,
) -> Seq<char> {
    header_text(config) + deployment_text(
        config,
        namespace,
        service.name_text(),
        image,
        replicas,
        service.container_port_number(),
    ) + service_text(
        config,
        namespace,
        service.name_text(),
        service.service_port_number(),
        service.container_port_number(),
    )
}

fn short_labels(indent: &str, name: &str, config: &AvxConfig) -> (text: String)
    ensures
        text@ == short_labels_text(indent@, name@, config@),
{
    let mut text = owned(indent);
    text.append("app: ");
    text.append(name);
    text.append("\n");
    text.append(indent);
    text.append("stack: ");
    text.append(config.stack.as_str());
    text.append("\n");
    text.append(indent);
    text.append("layer: ");
    text.append(config.layer.as_str());
    text.append("\n");
    text
}

fn labels(indent: &str, name: &str, config: &AvxConfig) -> (text: String)
    ensures
        text@ == labels_text(indent@, name@, config@),
{
    let mut text = short_labels(indent, name, config);
    text.append(indent);
    text.append("env: ");
    text.append(config.env.as_str());
    text.append("\n");
    text.append(indent);
    text.append("cluster: ");
    text.append(config.cluster.as_str());
    text.append("\n");
    text.append(indent);
    text.append("mesh: ");
    text.append(config.mesh.as_str());
    text.append("\n");
    text
}

fn variable(key: &str, value: &str) -> (text: String)
    ensures
        text@ == variable_text(key@, value@),
{
    let mut text = owned("            - name: ");
    text.append(key);
    text.append("\n              value: \"");
    text.append(value);
    text.append("\"\n");
    text
}

fn environment(config: &AvxConfig) -> (text: String)
    ensures
        text@ == environment_text(config@),
{
    let mut text = variable("AVX__STACK", config.stack.as_str());
    text.append(variable("AVX__LAYER", config.layer.as_str()).as_str());
    text.append(variable("AVX__ENV", config.env.as_str()).as_str());
    text.append(variable("AVX__CLUSTER", config.cluster.as_str()).as_str());
    text.append(variable("AVX__MESH", config.mesh.as_str()).as_str());
    text
}

fn header(config: &AvxConfig) -> (text: String)
    ensures
        text@ == header_text(config@),
{
    let mut text = owned("# Generated by avx-cli - Avila Experience Fabric\n# Stack: ");
    text.append(config.stack.as_str());
    text.append(" | Layer: ");
    text.append(config.layer.as_str());
    text.append(" | Cluster: ");
    text.append(config.cluster.as_str());
    text.append("\n");
    text
}

fn deployment(
    config: &AvxConfig,
    namespace: &str,
    name: &str,
    image: &str,
    replicas: u32,
    port: u16,
) -> (text: String)
    ensures
        text@ == deployment_text(
            config@,
            namespace@,
            name@,
            image@,
            replicas as nat,
            port as nat,
        ),
{
    let mut text = owned("---\napiVersion: apps/v1\nkind: Deployment\nmetadata:\n  name: ");
    text.append(name);
    text.append("\n  namespace: ");
    text.append(namespace);
    text.append("\n  labels:\n");
    text.append(labels("    ", name, config).as_str());
    text.append("spec:\n  replicas: ");
    text.append(decimal(replicas as u64).as_str());
    text.append("\n  selector:\n    matchLabels:\n      app: ");
    text.append(name);
    text.append("\n  template:\n    metadata:\n      labels:\n");
    text.append(labels("        ", name, config).as_str());
    text.append("    spec:\n      containers:\n        - name: ");
    text.append(name);
    text.append("\n          image: ");
    text.append(image);
    text.append(
        "\n          imagePullPolicy: IfNotPresent\n          ports:\n            - containerPort: ",
    );
    text.append(decimal(port as u64).as_str());
    text.append("\n          env:\n");
    text.append(environment(config).as_str());
    text.append(
        "          resources:\n            requests:\n              cpu: \"100m\"\n              memory: \"128Mi\"\n            limits:\n              cpu: \"500m\"\n              memory: \"256Mi\"\n",
    );
    text
}

fn service_section(
    config: &AvxConfig,
    namespace: &str,
    name: &str,
    port: u16,
    target_port: u16,
) -> (text: String)
    ensures
        text@ == service_text(config@, namespace@, name@, port as nat, target_port as nat),
{
    let mut text = owned("---\napiVersion: v1\nkind: Service\nmetadata:\n  name: ");
    text.append(name);
    text.append("\n  namespace: ");
    text.append(namespace);
    text.append("\n  labels:\n");
    text.append(short_labels("    ", name, config).as_str());
    text.append("spec:\n  type: ClusterIP\n  selector:\n    app: ");
    text.append(name);
    text.append("\n  ports:\n    - name: http\n      port: ");
    text.append(decimal(port as u64).as_str());
    text.append("\n      targetPort: ");
    text.append(decimal(target_port as u64).as_str());
    text.append("\n");
    text
}

/// The manifest of a service in `namespace`, with the labels of `config`. The
/// container runs `image_override`, or the image of the service where none is
/// given.
pub fn generate_k8s_manifest(
    config: &AvxConfig,
    namespace: &str,
    service: ServiceKind,
    image_override: Option<String>,
    replicas: u32,
) -> (manifest: String)
    ensures
        manifest@ == manifest_text(
            config@,
            namespace@,
            service,
            image_text(service, image_override),
            replicas as nat,
        ),
{
    let name = service.name();
    let image = match image_override {
        Some(image) => image,
        None => service.default_image(),
    };
    let container_port = service.container_port();
    let service_port = service.service_port();
    let mut manifest = header(config);
    manifest.append(
        deployment(config, namespace, name, image.as_str(), replicas, container_port).as_str(),
    );
    manifest.append(service_section(config, namespace, name, service_port, container_port).as_str());
    manifest
}

} // verus!
