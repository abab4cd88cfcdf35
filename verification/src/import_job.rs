//! The job that imports a Trino connection into Superset.

use crate::object::{ObjectKind, OwnerReference, OwnerReferenceView};
use crate::superset::{
    LocalObjectReference, ResolvedProductImage, ResolvedProductImageView, SupersetCluster,
    SupersetClusterView,
};
use crate::trino_connection_controller::{Error, ErrorView};
use crate::trinoconnection::{TrinoConnection, TrinoConnectionView};
use crate::yaml;
use crate::yaml::Yaml;
use vstd::prelude::*;

verus! {

/// An environment variable whose value comes from a key of a secret.
#[derive(Debug, PartialEq, Eq)]
pub struct EnvVar {
    pub name: String,
    pub secret_name: String,
    pub secret_key: String,
}

/// The model of an [`EnvVar`].
pub struct EnvVarView {
    pub name: Seq<char>,
    pub secret_name: Seq<char>,
    pub secret_key: Seq<char>,
}

impl View for EnvVar {
    type V = EnvVarView;

    open spec fn view(&self) -> EnvVarView {
        EnvVarView {
            name: self.name@,
            secret_name: self.secret_name@,
            secret_key: self.secret_key@,
        }
    }
}

impl DeepView for EnvVar {
    type V = EnvVarView;

    open spec fn deep_view(&self) -> EnvVarView {
        self@
    }
}

/// A container of a pod.
#[derive(Debug, PartialEq, Eq)]
pub struct Container {
    pub name: String,
    pub image: String,
    pub image_pull_policy: String,
    pub command: Vec<String>,
    pub args: Vec<String>,
    pub env: Vec<EnvVar>,
}

/// The model of a [`Container`].
pub struct ContainerView {
    pub name: Seq<char>,
    pub image: Seq<char>,
    pub image_pull_policy: Seq<char>,
    pub command: Seq<Seq<char>>,
    pub args: Seq<Seq<char>>,
    pub env: Seq<EnvVarView>,
}

impl View for Container {
    type V = ContainerView;

    open spec fn view(&self) -> ContainerView {
        ContainerView {
            name: self.name@,
            image: self.image@,
            image_pull_policy: self.image_pull_policy@,
            command: self.command.deep_view(),
            args: self.args.deep_view(),
            env: self.env.deep_view(),
        }
    }
}

impl DeepView for Container {
    type V = ContainerView;

    open spec fn deep_view(&self) -> ContainerView {
        self@
    }
}

/// The user and the group that the containers of a pod run as.
#[derive(Clone, Copy, Debug, PartialEq, Eq, Structural)]
pub struct PodSecurityContext {
    pub run_as_user: i64,
    pub run_as_group: i64,
}

/// The pods that a job runs.
#[derive(Debug, PartialEq, Eq)]
pub struct PodTemplate {
    pub name: String,
    pub containers: Vec<Container>,
    pub image_pull_secrets: Option<Vec<LocalObjectReference>>,
    pub restart_policy: String,
    pub service_account: String,
    pub security_context: PodSecurityContext,
}

/// The model of a [`PodTemplate`].
pub struct PodTemplateView {
    pub name: Seq<char>,
    pub containers: Seq<ContainerView>,
    pub image_pull_secrets: Option<Seq<Option<Seq<char>>>>,
    pub restart_policy: Seq<char>,
    pub service_account: Seq<char>,
    pub security_context: PodSecurityContext,
}

impl View for PodTemplate {
    type V = PodTemplateView;

    open spec fn view(&self) -> PodTemplateView {
        PodTemplateView {
            name: self.name@,
            containers: self.containers.deep_view(),
            image_pull_secrets: self.image_pull_secrets.deep_view(),
            restart_policy: self.restart_policy@,
            service_account: self.service_account@,
            security_context: self.security_context,
        }
    }
}

/// A job. It runs a single time, and what it leaves out is left to the defaults of the cluster.
#[derive(Debug, PartialEq, Eq)]
pub struct Job {
    pub name: String,
    pub namespace: Option<String>,
    pub owner_reference: OwnerReference,
    pub template: PodTemplate,
}

/// The model of a [`Job`].
pub struct JobView {
    pub name: Seq<char>,
    pub namespace: Option<Seq<char>>,
    pub owner_reference: OwnerReferenceView,
    pub template: PodTemplateView,
}

impl View for Job {
    type V = JobView;

    open spec fn view(&self) -> JobView {
        JobView {
            name: self.name@,
            namespace: self.namespace.deep_view(),
            owner_reference: self.owner_reference@,
            template: self.template@,
        }
    }
}

/// Where Superset reads its configuration from.
#[derive(Debug, PartialEq, Eq)]
pub struct SupersetConfigFile {
    /// The directory that Python searches for the file.
    pub python_path: String,
    /// The name of the file in that directory.
    pub filename: String,
}

/// The model of a [`SupersetConfigFile`].
pub struct SupersetConfigFileView {
    pub python_path: Seq<char>,
    pub filename: Seq<char>,
}

impl View for SupersetConfigFile {
    type V = SupersetConfigFileView;

    open spec fn view(&self) -> SupersetConfigFileView {
        SupersetConfigFileView { python_path: self.python_path@, filename: self.filename@ }
    }
}

/// The YAML document that declares one database.
pub open spec fn trino_db_yaml(trino_cluster_name: Seq<char>, sqlalchemy_str: Seq<char>) -> Seq<
    char,
> {
    "databases:\n- database_name: "@ + trino_cluster_name + "\n  sqlalchemy_uri: "@
        + sqlalchemy_str + "\n  tables: []\n"@
}

/// The script of the import job: it writes the configuration of Superset, then the YAML document, and
/// imports the document.
pub open spec fn import_script(config_file: SupersetConfigFileView, yaml: Seq<char>) -> Seq<char> {
    let make_directory = "mkdir -p "@ + config_file.python_path;
    let write_config = "echo \"import os; SQLALCHEMY_DATABASE_URI = os.environ.get('DATABASE_URI')\" > "@
        + config_file.python_path + "/"@ + config_file.filename;
    let write_yaml = "echo \""@ + yaml + "\" > /tmp/trinos.yaml"@;
    let import = "superset import_datasources -p /tmp/trinos.yaml"@;
    make_directory + "; "@ + write_config + "; "@ + write_yaml + "; "@ + import
}

/// The container that runs the import.
pub open spec fn import_container(
    superset_cluster: SupersetClusterView,
    image: ResolvedProductImageView,
    script: Seq<char>,
) -> ContainerView {
    ContainerView {
        name: "superset-import-trino-connection"@,
        image: image.image,
        image_pull_policy: image.image_pull_policy,
        command: seq!["/bin/sh"@],
        args: seq!["-c"@, script],
        env: seq![
            EnvVarView {
                name: "DATABASE_URI"@,
                secret_name: superset_cluster.credentials_secret,
                secret_key: "connections.sqlalchemyDatabaseUri"@,
            },
            EnvVarView {
                name: "SUPERSET_SECRET_KEY"@,
                secret_name: superset_cluster.credentials_secret,
                secret_key: "connections.secretKey"@,
            },
        ],
    }
}

/// The job that imports a connection.
pub open spec fn import_job(
    superset_cluster: SupersetClusterView,
    trino_connection: TrinoConnectionView,
    image: ResolvedProductImageView,
    sqlalchemy_str: Seq<char>,
    sa_name: Seq<char>,
    config_file: SupersetConfigFileView,
) -> JobView {
    let yaml = trino_db_yaml(trino_connection.spec.trino.name, sqlalchemy_str);
    JobView {
        name: trino_connection.job_name(),
        namespace: trino_connection.metadata.namespace,
        owner_reference: OwnerReferenceView::controlled_by(
            ObjectKind::TrinoConnection,
            trino_connection.metadata,
        ),
        template: PodTemplateView {
            name: trino_connection.job_name(),
            containers: seq![
                import_container(superset_cluster, image, import_script(config_file, yaml)),
            ],
            image_pull_secrets: image.pull_secrets,
            restart_policy: "Never"@,
            service_account: sa_name,
            security_context: PodSecurityContext { run_as_user: 1000, run_as_group: 0 },
        },
    }
}

/// A YAML document ready to be imported with `superset import_datasources`.
pub fn build_trino_db_yaml(trino_cluster_name: &str, sqlalchemy_str: &str) -> (res: Result<
    String,
    Error,
>)
    ensures
        res is Ok,
        res->Ok_0@ == trino_db_yaml(trino_cluster_name@, sqlalchemy_str@),
{
    Ok(
        "databases:\n- database_name: ".to_owned().concat(trino_cluster_name).concat(
            "\n  sqlalchemy_uri: ",
        ).concat(sqlalchemy_str).concat("\n  tables: []\n"),
    )
}

/// The YAML document tells which database it declares: the cluster name, which holds no line break,
/// and the connect string can be read off it.
pub proof fn lemma_yaml_tells_databases_apart(
    left_name: Seq<char>,
    left_uri: Seq<char>,
    right_name: Seq<char>,
    right_uri: Seq<char>,
)
    requires
        !left_name.contains('\n'),
        !right_name.contains('\n'),
        trino_db_yaml(left_name, left_uri) == trino_db_yaml(right_name, right_uri),
    ensures
        left_name == right_name,
        left_uri == right_uri,
{
    reveal_strlit("\n  sqlalchemy_uri: ");
    let head = "databases:\n- database_name: "@;
    let middle = "\n  sqlalchemy_uri: "@;
    let tail = "\n  tables: []\n"@;
    let left = trino_db_yaml(left_name, left_uri);
    let right = trino_db_yaml(right_name, right_uri);
    let l = left_name.len() as int;
    let r = right_name.len() as int;
    assert(left[head.len() + l] == '\n');
    assert(right[head.len() + r] == '\n');
    if l < r {
        assert(right[head.len() + l] == right_name[l]);
        assert(right_name.contains('\n'));
    }
    if r < l {
        assert(left[head.len() + r] == left_name[r]);
        assert(left_name.contains('\n'));
    }
    assert(left.subrange(head.len() as int, head.len() + l) == left_name);
    assert(right.subrange(head.len() as int, head.len() + r) == right_name);
    let start = head.len() + l + middle.len();
    let end = left.len() - tail.len();
    assert(left.subrange(start, end) == left_uri);
    assert(right.subrange(start, end) == right_uri);
}

/// The lines of the YAML document, for a name and a connect string without line breaks.
proof fn lemma_yaml_lines(name: Seq<char>, uri: Seq<char>)
    requires
        !name.contains('\n'),
        !uri.contains('\n'),
    ensures
        yaml::lines(trino_db_yaml(name, uri)) == seq![
            "databases:"@,
            "- database_name: "@ + name,
            "  sqlalchemy_uri: "@ + uri,
            "  tables: []"@,
        ],
{
    reveal_strlit("databases:\n- database_name: ");
    reveal_strlit("\n  sqlalchemy_uri: ");
    reveal_strlit("\n  tables: []\n");
    reveal_strlit("databases:");
    reveal_strlit("- database_name: ");
    reveal_strlit("  sqlalchemy_uri: ");
    reveal_strlit("  tables: []");
    let first = "databases:"@;
    let second = "- database_name: "@ + name;
    let third = "  sqlalchemy_uri: "@ + uri;
    let fourth = "  tables: []"@;
    let end = Seq::<char>::empty();
    let after_third = fourth + seq!['\n'] + end;
    let after_second = third + seq!['\n'] + after_third;
    let after_first = second + seq!['\n'] + after_second;
    assert(trino_db_yaml(name, uri) =~= first + seq!['\n'] + after_first);
    assert(!first.contains('\n'));
    assert(!second.contains('\n')) by {
        if second.contains('\n') {
            let i = choose|i: int| 0 <= i < second.len() && second[i] == '\n';
            assert(i >= 17);
            assert(name[i - 17] == '\n');
        }
    }
    assert(!third.contains('\n')) by {
        if third.contains('\n') {
            let i = choose|i: int| 0 <= i < third.len() && third[i] == '\n';
            assert(i >= 18);
            assert(uri[i - 18] == '\n');
        }
    }
    assert(!fourth.contains('\n'));
    yaml::lemma_first_line(first, after_first);
    yaml::lemma_first_line(second, after_second);
    yaml::lemma_first_line(third, after_third);
    yaml::lemma_first_line(fourth, end);
    assert(yaml::lines(end) =~= seq![]);
}

/// The name and the connect string of the one database that a document declares, where it has the
/// shape of an import document.
pub open spec fn declared(document: Seq<char>) -> Option<(Seq<char>, Seq<char>)> {
    let lines = yaml::lines(document);
    let name = "- database_name: "@;
    let uri = "  sqlalchemy_uri: "@;
    if lines.len() == 4 && lines[0] == "databases:"@ && name.is_prefix_of(lines[1])
        && uri.is_prefix_of(lines[2]) && lines[3] == "  tables: []"@ {
        Some((lines[1].skip(name.len() as int), lines[2].skip(uri.len() as int)))
    } else {
        None
    }
}

/// The YAML document can be read back: its lines declare one database, which has the cluster's name
/// and its connect string, where neither holds a line break.
pub proof fn lemma_yaml_can_be_read_back(name: Seq<char>, uri: Seq<char>)
    requires
        !name.contains('\n'),
        !uri.contains('\n'),
    ensures
        declared(trino_db_yaml(name, uri)) == Some((name, uri)),
{
    lemma_yaml_lines(name, uri);
    let name_head = "- database_name: "@;
    let uri_head = "  sqlalchemy_uri: "@;
    assert((name_head + name).skip(name_head.len() as int) == name);
    assert((uri_head + uri).skip(uri_head.len() as int) == uri);
    assert(name_head.is_prefix_of(name_head + name));
    assert(uri_head.is_prefix_of(uri_head + uri));
}

/// The database that an import document declares.
pub open spec fn database(name: Seq<char>, uri: Seq<char>) -> Yaml {
    Yaml::Mapping(
        seq![
            ("database_name"@, Yaml::Scalar(name)),
            ("sqlalchemy_uri"@, Yaml::Scalar(uri)),
            ("tables"@, Yaml::List(seq![])),
        ],
    )
}

/// The lines that declare a database say so.
proof fn lemma_database_is_read(name: Seq<char>, uri: Seq<char>, depth: nat)
    requires
        yaml::is_plain(name),
        yaml::is_plain(uri),
        depth > 0,
    ensures
        yaml::read_block(
            seq![
                "database_name"@ + seq![':', ' '] + name,
                "sqlalchemy_uri"@ + seq![':', ' '] + uri,
                "tables"@ + seq![':', ' '] + seq!['[', ']'],
            ],
            depth,
        ) == Some(database(name, uri)),
{
    reveal_strlit("database_name");
    reveal_strlit("sqlalchemy_uri");
    reveal_strlit("tables");
    let name_line = "database_name"@ + seq![':', ' '] + name;
    let uri_line = "sqlalchemy_uri"@ + seq![':', ' '] + uri;
    let tables_line = "tables"@ + seq![':', ' '] + seq!['[', ']'];
    let none = Seq::<Seq<char>>::empty();
    yaml::lemma_key_with_value("tables"@, seq!['[', ']'], none, depth);
    yaml::lemma_key_with_value("sqlalchemy_uri"@, uri, seq![tables_line] + none, depth);
    yaml::lemma_key_with_value(
        "database_name"@,
        name,
        seq![uri_line] + (seq![tables_line] + none),
        depth,
    );
    assert(seq![name_line] + (seq![uri_line] + (seq![tables_line] + none)) =~= seq![
        name_line,
        uri_line,
        tables_line,
    ]);
    let keys = yaml::read_keys(seq![name_line, uri_line, tables_line], depth)->0;
    assert(keys =~= seq![
        ("database_name"@, Yaml::Scalar(name)),
        ("sqlalchemy_uri"@, Yaml::Scalar(uri)),
        ("tables"@, Yaml::List(seq![])),
    ]);
    assert(yaml::keys_differ(keys));
}

/// Read as YAML, the document is a mapping with the one key `databases`. That is a list of exactly
/// one database, which has the cluster's name, its connect string and no tables. The name and the
/// connect string are plain scalars, which stand in YAML for themselves.
pub proof fn lemma_yaml_declares_one_database(name: Seq<char>, uri: Seq<char>)
    requires
        yaml::is_plain(name),
        yaml::is_plain(uri),
    ensures
        yaml::read(trino_db_yaml(name, uri)) == Some(
            Yaml::Mapping(seq![("databases"@, Yaml::List(seq![database(name, uri)]))]),
        ),
{
    reveal_strlit("databases:\n- database_name: ");
    reveal_strlit("databases");
    reveal_strlit("databases:");
    reveal_strlit("- database_name: ");
    reveal_strlit("  sqlalchemy_uri: ");
    reveal_strlit("  tables: []");
    reveal_strlit("database_name");
    reveal_strlit("sqlalchemy_uri");
    reveal_strlit("tables");
    let document = trino_db_yaml(name, uri);
    let depth = document.len();
    lemma_yaml_lines(name, uri);
    let all = yaml::lines(document);
    let below = all.drop_first();
    let entry = seq![
        "database_name"@ + seq![':', ' '] + name,
        "sqlalchemy_uri"@ + seq![':', ' '] + uri,
        "tables"@ + seq![':', ' '] + seq!['[', ']'],
    ];
    lemma_database_is_read(name, uri, (depth - 2) as nat);

    let set_in = below.drop_first();
    assert(set_in.drop_first().drop_first().len() == 0);
    assert(yaml::set_in(set_in.drop_first().drop_first()) == 0);
    assert(yaml::set_in(set_in.drop_first()) == 1);
    assert(yaml::set_in(set_in) == 2);
    assert(yaml::first_entry(below) =~= entry) by {
        assert(below[0].skip(2) =~= entry[0]);
        assert(below[1].skip(2) =~= entry[1]);
        assert(below[2].skip(2) =~= entry[2]);
    }
    assert(set_in.skip(2).len() == 0);
    assert(yaml::read_entries(set_in.skip(2), (depth - 1) as nat) == Some(Seq::<Yaml>::empty()));
    assert(yaml::read_entries(below, (depth - 1) as nat)->0 =~= seq![database(name, uri)]);
    assert(yaml::read_block(below, (depth - 1) as nat) == Some(
        Yaml::List(seq![database(name, uri)]),
    ));

    assert(yaml::in_sequence(set_in.drop_first().drop_first()) == 0);
    assert(yaml::in_sequence(set_in.drop_first()) == 1);
    assert(yaml::in_sequence(set_in) == 2);
    assert(yaml::in_sequence(below) == 3);
    assert(below.take(3) =~= below);
    assert(below.skip(3).len() == 0);
    let none = Seq::<char>::empty();
    assert("databases:"@ =~= "databases"@ + seq![':'] + none);
    yaml::lemma_key_end("databases"@, none);
    assert("databases:"@.take(9) =~= "databases"@);
    assert("databases:"@.skip(10) =~= none);
    assert(yaml::without_blanks(none) == none);
    assert(yaml::is_plain("databases"@));
    assert(all[0] == "databases:"@);
    assert(yaml::key_end(all[0]) == 9);
    assert(yaml::read_keys(below.skip(3), depth) == Some(Seq::<(Seq<char>, Yaml)>::empty()));
    assert(yaml::read_keys(all, depth) is Some);
    assert(yaml::read_keys(all, depth)->0 =~= seq![
        ("databases"@, Yaml::List(seq![database(name, uri)])),
    ]);
}

/// The script of the import job.
fn build_import_script(config_file: &SupersetConfigFile, yaml: &str) -> (res: String)
    ensures
        res@ == import_script(config_file@, yaml@),
{
    let make_directory = "mkdir -p ".to_owned().concat(config_file.python_path.as_str());
    let write_config = "echo \"import os; SQLALCHEMY_DATABASE_URI = os.environ.get('DATABASE_URI')\" > ".to_owned().concat(
        config_file.python_path.as_str(),
    ).concat("/").concat(config_file.filename.as_str());
    let write_yaml = "echo \"".to_owned().concat(yaml).concat("\" > /tmp/trinos.yaml");
    make_directory.concat("; ").concat(write_config.as_str()).concat("; ").concat(
        write_yaml.as_str(),
    ).concat("; ").concat("superset import_datasources -p /tmp/trinos.yaml")
}

/// The container that runs the import.
fn build_import_container(
    superset_cluster: &SupersetCluster,
    image: &ResolvedProductImage,
    script: String,
) -> (res: Container)
    ensures
        res@ == import_container(superset_cluster@, image@, script@),
{
    let secret = &superset_cluster.credentials_secret;
    let res = Container {
        name: "superset-import-trino-connection".to_owned(),
        image: image.image.clone(),
        image_pull_policy: image.image_pull_policy.clone(),
        command: vec!["/bin/sh".to_owned()],
        args: vec!["-c".to_owned(), script],
        env: vec![
            EnvVar {
                name: "DATABASE_URI".to_owned(),
                secret_name: secret.clone(),
                secret_key: "connections.sqlalchemyDatabaseUri".to_owned(),
            },
            // Superset does not start without a secret key, so the import would fail.
            EnvVar {
                name: "SUPERSET_SECRET_KEY".to_owned(),
                secret_name: secret.clone(),
                secret_key: "connections.secretKey".to_owned(),
            },
        ],
    };
    let ghost expected = import_container(superset_cluster@, image@, script@);
    assert(res@.command =~= expected.command);
    assert(res@.args =~= expected.args);
    assert(res@.env =~= expected.env);
    res
}

/// Builds the import job. When run it will import the trino connection into the database. The
/// connection owns the job, which takes that it has a uid.
pub fn build_import_job(
    superset_cluster: &SupersetCluster,
    trino_connection: &TrinoConnection,
    resolved_product_image: &ResolvedProductImage,
    sqlalchemy_str: &str,
    sa_name: &str,
    config_file: &SupersetConfigFile,
) -> (res: Result<Job, Error>)
    requires
        trino_connection.metadata.name is Some,
    ensures
        match res {
            Ok(job) => trino_connection@.metadata.uid is Some && job@ == import_job(
                superset_cluster@,
                trino_connection@,
                resolved_product_image@,
                sqlalchemy_str@,
                sa_name@,
                config_file@,
            ),
            Err(error) => trino_connection@.metadata.uid is None && error@
                == (ErrorView::ObjectMissingMetadataForOwnerRef { key: "uid"@ }),
        },
{
    let yaml = build_trino_db_yaml(trino_connection.spec.trino.name.as_str(), sqlalchemy_str)?;
    let script = build_import_script(config_file, yaml.as_str());
    let container = build_import_container(superset_cluster, resolved_product_image, script);
    let template = PodTemplate {
        name: trino_connection.job_name(),
        containers: vec![container],
        image_pull_secrets: resolved_product_image.pull_secrets.clone(),
        restart_policy: "Never".to_owned(),
        service_account: sa_name.to_owned(),
        security_context: PodSecurityContext { run_as_user: 1000, run_as_group: 0 },
    };
    let owner = OwnerReference::controlled_by(
        ObjectKind::TrinoConnection,
        &trino_connection.metadata,
    );
    match owner {
        Ok(owner_reference) => {
            let job = Job {
                name: trino_connection.job_name(),
                namespace: trino_connection.metadata.namespace.clone(),
                owner_reference,
                template,
            };
            let ghost expected = import_job(
                superset_cluster@,
                trino_connection@,
                resolved_product_image@,
                sqlalchemy_str@,
                sa_name@,
                config_file@,
            );
            assert(job@.template.containers =~= expected.template.containers);
            assert(job@.template.image_pull_secrets == expected.template.image_pull_secrets);
            Ok(job)
        },
        Err(source) => Err(Error::ObjectMissingMetadataForOwnerRef { source }),
    }
}

} // verus!
