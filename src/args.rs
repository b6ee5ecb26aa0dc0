use vstd::prelude::*;
use crate::schemas::{OrganizationId, ProjectId, ProjectionLevel, Topology};
use crate::text::{is_blank, str_eq, trims_to_empty};

verus! {

/// The keys of a lookup table, in order.
pub open spec fn table_keys<A>(table: Seq<(&'static str, A)>) -> Seq<Seq<char>> {
    Seq::new(table.len(), |i: int| table[i].0@)
}

/// A key as Rust's `Debug` writes a plain word: between double quotes.
pub open spec fn quoted(key: Seq<char>) -> Seq<char> {
    seq!['"'] + key + seq!['"']
}

/// The quoted keys, separated by a comma and a space.
pub open spec fn quoted_join(keys: Seq<Seq<char>>) -> Seq<char>
    decreases keys.len(),
{
    if keys.len() == 0 {
        Seq::empty()
    } else if keys.len() == 1 {
        quoted(keys[0])
    } else {
        quoted_join(keys.drop_last()) + seq![',', ' '] + quoted(keys.last())
    }
}

/// The message for a value that is not in the table.
pub open spec fn unsupported_message(src: Seq<char>, keys: Seq<Seq<char>>) -> Seq<char> {
    "Unsupported value: \""@ + src + "\". Supported values: ["@ + quoted_join(keys) + seq![']']
}

/// Whether the entry at `i` is the first whose key is `key`.
pub open spec fn is_first_match<A>(table: Seq<(&'static str, A)>, key: Seq<char>, i: int) -> bool {
    &&& 0 <= i < table.len()
    &&& table[i].0@ == key
    &&& forall|j: int| 0 <= j < i ==> (#[trigger] table[j]).0@ != key
}

/// Looks `src` up among the keys of `table`: the value of the first entry
/// with that key, or a message that lists every key.
pub fn parse_enum<A: Copy>(table: &[(&'static str, A)], src: &str) -> (r: Result<A, String>)
    ensures
        match r {
            Ok(a) => exists|i: int| is_first_match(table@, src@, i) && a == table@[i].1,
            Err(m) => (forall|i: int| 0 <= i < table@.len() ==> (#[trigger] table@[i]).0@ != src@)
                && m@ == unsupported_message(src@, table_keys(table@)),
        },
{
    let mut i: usize = 0;
    while i < table.len()
        invariant
            i <= table@.len(),
            forall|j: int| 0 <= j < i ==> (#[trigger] table@[j]).0@ != src@,
        decreases table@.len() - i,
    {
        let (key, value) = table[i];
        if str_eq(key, src) {
            assert(is_first_match(table@, src@, i as int));
            return Ok(value);
        }
        i = i + 1;
    }
    let mut message = String::from_str("Unsupported value: \"");
    message.append(src);
    message.append("\". Supported values: [");
    let ghost head = message@;
    let ghost keys = table_keys(table@);
    let mut k: usize = 0;
    while k < table.len()
        invariant
            k <= table@.len(),
            keys == table_keys(table@),
            message@ == head + quoted_join(keys.take(k as int)),
        decreases table@.len() - k,
    {
        if k > 0 {
            message.append(", ");
        }
        message.append("\"");
        message.append(table[k].0);
        message.append("\"");
        proof {
            reveal_strlit(", ");
            reveal_strlit("\"");
            let t = keys.take(k + 1);
            assert(t.drop_last() =~= keys.take(k as int));
            assert(t.last() == table@[k as int].0@);
        }
        assert(message@ =~= head + quoted_join(keys.take(k + 1)));
        k = k + 1;
    }
    message.append("]");
    proof {
        reveal_strlit("]");
        assert(keys.take(table@.len() as int) =~= keys);
    }
    assert(message@ =~= unsupported_message(src@, table_keys(table@)));
    Err(message)
}

/// A cloud provider.
#[derive(Clone, Copy, Debug, PartialEq, Eq, Structural)]
pub enum Provider {
    Aws,
    Gcp,
    Azure,
}

impl Provider {
    pub open spec fn name(&self) -> Seq<char> {
        match self {
            Provider::Aws => "aws"@,
            Provider::Gcp => "gcp"@,
            Provider::Azure => "azure"@,
        }
    }

    pub fn as_str(&self) -> (r: &'static str)
        ensures
            r@ == self.name(),
    {
        match self {
            Provider::Aws => "aws",
            Provider::Gcp => "gcp",
            Provider::Azure => "azure",
        }
    }
}

/// A property of a profile that can be set or read.
#[derive(Clone, Copy, Debug, PartialEq, Eq, Structural)]
pub enum ProfilePropName {
    ProjectId,
    OrgId,
    ApiBaseUrl,
    Fmt,
}

impl ProfilePropName {
    pub open spec fn name(&self) -> Seq<char> {
        match self {
            ProfilePropName::ProjectId => "project-id"@,
            ProfilePropName::OrgId => "org-id"@,
            ProfilePropName::ApiBaseUrl => "api-base-url"@,
            ProfilePropName::Fmt => "fmt"@,
        }
    }

    pub fn as_str(&self) -> (r: &'static str)
        ensures
            r@ == self.name(),
    {
        match self {
            ProfilePropName::ProjectId => "project-id",
            ProfilePropName::OrgId => "org-id",
            ProfilePropName::ApiBaseUrl => "api-base-url",
            ProfilePropName::Fmt => "fmt",
        }
    }
}

/// How results are rendered.
#[derive(Clone, Copy, Debug, PartialEq, Eq, Structural)]
pub enum OutputFormat {
    Cli,
    CliJson,
    Api,
    ApiVerbose,
}

impl OutputFormat {
    pub open spec fn name(&self) -> Seq<char> {
        match self {
            OutputFormat::Cli => "cli"@,
            OutputFormat::CliJson => "cli-json"@,
            OutputFormat::Api => "api"@,
            OutputFormat::ApiVerbose => "api-verbose"@,
        }
    }

    pub fn as_str(&self) -> (r: &'static str)
        ensures
            r@ == self.name(),
    {
        match self {
            OutputFormat::Cli => "cli",
            OutputFormat::CliJson => "cli-json",
            OutputFormat::Api => "api",
            OutputFormat::ApiVerbose => "api-verbose",
        }
    }
}

/// The names accepted for a cloud provider.
pub open spec fn provider_choices() -> Seq<(&'static str, Provider)> {
    seq![("aws", Provider::Aws), ("gcp", Provider::Gcp), ("azure", Provider::Azure)]
}

fn provider_table() -> (r: Vec<(&'static str, Provider)>)
    ensures
        r@ == provider_choices(),
{
    let mut t: Vec<(&'static str, Provider)> = Vec::new();
    t.push(("aws", Provider::Aws));
    t.push(("gcp", Provider::Gcp));
    t.push(("azure", Provider::Azure));
    assert(t@ =~= provider_choices());
    t
}

/// The names accepted for a profile property.
pub open spec fn context_prop_choices() -> Seq<(&'static str, ProfilePropName)> {
    seq![("project-id", ProfilePropName::ProjectId), ("org-id", ProfilePropName::OrgId), ("api-base-url", ProfilePropName::ApiBaseUrl), ("fmt", ProfilePropName::Fmt)]
}

fn context_prop_table() -> (r: Vec<(&'static str, ProfilePropName)>)
    ensures
        r@ == context_prop_choices(),
{
    let mut t: Vec<(&'static str, ProfilePropName)> = Vec::new();
    t.push(("project-id", ProfilePropName::ProjectId));
    t.push(("org-id", ProfilePropName::OrgId));
    t.push(("api-base-url", ProfilePropName::ApiBaseUrl));
    t.push(("fmt", ProfilePropName::Fmt));
    assert(t@ =~= context_prop_choices());
    t
}

/// The topologies that can be asked for when creating a cluster.
pub open spec fn topology_choices() -> Seq<(&'static str, Topology)> {
    seq![("single-node", Topology::SingleNode), ("three-node-multi-zone", Topology::ThreeNodeMultiZone)]
}

fn topology_table() -> (r: Vec<(&'static str, Topology)>)
    ensures
        r@ == topology_choices(),
{
    let mut t: Vec<(&'static str, Topology)> = Vec::new();
    t.push(("single-node", Topology::SingleNode));
    t.push(("three-node-multi-zone", Topology::ThreeNodeMultiZone));
    assert(t@ =~= topology_choices());
    t
}

/// The names accepted for a projection level.
pub open spec fn projection_level_choices() -> Seq<(&'static str, ProjectionLevel)> {
    seq![("off", ProjectionLevel::Off), ("system", ProjectionLevel::System), ("user", ProjectionLevel::User)]
}

fn projection_level_table() -> (r: Vec<(&'static str, ProjectionLevel)>)
    ensures
        r@ == projection_level_choices(),
{
    let mut t: Vec<(&'static str, ProjectionLevel)> = Vec::new();
    t.push(("off", ProjectionLevel::Off));
    t.push(("system", ProjectionLevel::System));
    t.push(("user", ProjectionLevel::User));
    assert(t@ =~= projection_level_choices());
    t
}

/// The names accepted for an output format.
pub open spec fn output_format_choices() -> Seq<(&'static str, OutputFormat)> {
    seq![("cli", OutputFormat::Cli), ("cli-json", OutputFormat::CliJson), ("api", OutputFormat::Api), ("api-verbose", OutputFormat::ApiVerbose)]
}

fn output_format_table() -> (r: Vec<(&'static str, OutputFormat)>)
    ensures
        r@ == output_format_choices(),
{
    let mut t: Vec<(&'static str, OutputFormat)> = Vec::new();
    t.push(("cli", OutputFormat::Cli));
    t.push(("cli-json", OutputFormat::CliJson));
    t.push(("api", OutputFormat::Api));
    t.push(("api-verbose", OutputFormat::ApiVerbose));
    assert(t@ =~= output_format_choices());
    t
}

/// What `parse_enum` returns for `src` on `table`.
pub open spec fn parsed_from<A>(table: Seq<(&'static str, A)>, src: Seq<char>, r: Result<A, String>) -> bool {
    match r {
        Ok(a) => exists|i: int| is_first_match(table, src, i) && a == table[i].1,
        Err(m) => (forall|i: int| 0 <= i < table.len() ==> (#[trigger] table[i]).0@ != src)
            && m@ == unsupported_message(src, table_keys(table)),
    }
}

pub fn parse_provider(src: &str) -> (r: Result<Provider, String>)
    ensures
        parsed_from(provider_choices(), src@, r),
{
    let table = provider_table();
    parse_enum(table.as_slice(), src)
}

pub fn parse_context_prop_name(src: &str) -> (r: Result<ProfilePropName, String>)
    ensures
        parsed_from(context_prop_choices(), src@, r),
{
    let table = context_prop_table();
    parse_enum(table.as_slice(), src)
}

pub fn parse_topology(src: &str) -> (r: Result<Topology, String>)
    ensures
        parsed_from(topology_choices(), src@, r),
{
    let table = topology_table();
    parse_enum(table.as_slice(), src)
}

pub fn parse_projection_level(src: &str) -> (r: Result<ProjectionLevel, String>)
    ensures
        parsed_from(projection_level_choices(), src@, r),
{
    let table = projection_level_table();
    parse_enum(table.as_slice(), src)
}

impl OutputFormat {
    /// Formats that render the classic way rather than the API's own.
    pub open spec fn is_v1_spec(&self) -> bool {
        *self == OutputFormat::Cli || *self == OutputFormat::CliJson
    }

    pub fn is_v1(&self) -> (r: bool)
        ensures
            r == self.is_v1_spec(),
    {
        match self {
            OutputFormat::Cli | OutputFormat::CliJson => true,
            _ => false,
        }
    }

    pub fn from_str(src: &str) -> (r: Result<OutputFormat, String>)
        ensures
            parsed_from(output_format_choices(), src@, r),
    {
        let table = output_format_table();
        parse_enum(table.as_slice(), src)
    }
}

/// The output format: the one named, or, when none is named, the active
/// profile's, or the classic one.
pub fn parse_output_format(src: &str, profile_format: Option<OutputFormat>) -> (r: Result<OutputFormat, String>)
    ensures
        trims_to_empty(src@) ==> r == Ok::<OutputFormat, String>(
            match profile_format {
                Some(f) => f,
                None => OutputFormat::Cli,
            },
        ),
        !trims_to_empty(src@) ==> parsed_from(output_format_choices(), src@, r),
{
    if is_blank(src) {
        match profile_format {
            Some(f) => Ok(f),
            None => Ok(OutputFormat::Cli),
        }
    } else {
        OutputFormat::from_str(src)
    }
}

/// The organization: the one named, or, when none is named, the active
/// profile's.
pub fn parse_org_id(src: &str, profile_org: Option<OrganizationId>) -> (r: Result<OrganizationId, String>)
    ensures
        !trims_to_empty(src@) ==> (r matches Ok(id) && id.0@ == src@),
        trims_to_empty(src@) ==> match profile_org {
            Some(id) => r == Ok::<OrganizationId, String>(id),
            None => (r matches Err(m) && m@ == "Not provided and you don't have an org-id property set in the [context] section of your settings.toml file"@),
        },
{
    if is_blank(src) {
        match profile_org {
            Some(id) => Ok(id),
            None => Err(String::from_str("Not provided and you don't have an org-id property set in the [context] section of your settings.toml file")),
        }
    } else {
        Ok(OrganizationId(String::from_str(src)))
    }
}

/// The project: the one named, or, when none is named, the active profile's.
pub fn parse_project_id(src: &str, profile_project: Option<ProjectId>) -> (r: Result<ProjectId, String>)
    ensures
        !trims_to_empty(src@) ==> (r matches Ok(id) && id.0@ == src@),
        trims_to_empty(src@) ==> match profile_project {
            Some(id) => r == Ok::<ProjectId, String>(id),
            None => (r matches Err(m) && m@ == "Not provided and you don't have an project-id property set in the [context] section of your settings.toml file"@),
        },
{
    if is_blank(src) {
        match profile_project {
            Some(id) => Ok(id),
            None => Err(String::from_str("Not provided and you don't have an project-id property set in the [context] section of your settings.toml file")),
        }
    } else {
        Ok(ProjectId(String::from_str(src)))
    }
}

/// Whether `validator` accepts a string as an email address.
pub uninterp spec fn is_valid_email(s: Seq<char>) -> bool;

/// Relies on `validator::validate_email`, which follows the HTML5 rules and
/// rejects at once a string that is empty or holds no `@`.
#[verifier::external_body]
fn validate_email(s: &str) -> (r: bool)
    ensures
        r == is_valid_email(s@),
        r ==> exists|i: int| 0 <= i < s@.len() && s@[i] == '@',
{
    validator::validate_email(s)
}

/// An email address, as given, if it is one.
pub fn parse_email(src: &str) -> (r: Result<String, String>)
    ensures
        is_valid_email(src@) ==> (r matches Ok(e) && e@ == src@),
        !is_valid_email(src@) ==> (r matches Err(m) && m@ == "Invalid email"@),
{
    if validate_email(src) {
        Ok(String::from_str(src))
    } else {
        Err(String::from_str("Invalid email"))
    }
}

} // verus!
