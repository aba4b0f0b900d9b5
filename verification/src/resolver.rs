//! Connection-credential resolver.
//!
//! Three mutually exclusive resolution paths, evaluated in a fixed
//! precedence order: an explicit connection string is used as-is; a fully
//! populated set of discrete connection fields is synthesized into a
//! connection string by a deterministic template; anything else resolves
//! through the remote secret store. Partial field sets are never silently
//! completed. When the string came from the command line (either way) and
//! persistence is requested and store credentials are present, the resolver
//! writes the string back to the store before the query runs; a string that
//! came from the store itself is never written back.
//!
//! The resolver itself performs no I/O. It decides, step by step, which
//! outside action comes next; the surrounding program performs the action
//! and hands the plain outcome back.

use vstd::prelude::*;

use crate::decimal::{dec_str, push_dec_u64};
use crate::error::{
    CliErrorModel, LibErrorModel, OdbcSecretsCliError, OdbcSecretsLibError,
};

verus! {

/// The closed set of secret-store engines. Exactly one member is concretely
/// implemented; requesting any other fails fast with a distinct
/// "not implemented" error instead of silently doing nothing.
#[derive(Debug, Clone, Copy, PartialEq, Eq, Structural)]
pub enum SecretStoreEngine {
    VAULT,
    INFISICAL,
}

impl Default for SecretStoreEngine {
    /// The engine assumed when none is selected.
    fn default() -> (r: Self)
        ensures
            r == SecretStoreEngine::VAULT,
    {
        SecretStoreEngine::VAULT
    }
}

impl SecretStoreEngine {
    /// The lower-case name under which the engine is selected on the
    /// command line.
    pub open spec fn name_spec(&self) -> Seq<char> {
        match self {
            SecretStoreEngine::VAULT => "vault"@,
            SecretStoreEngine::INFISICAL => "infisical"@,
        }
    }

    /// Render the engine's command-line name.
    pub fn name(&self) -> (r: String)
        ensures
            r@ == self.name_spec(),
    {
        match self {
            SecretStoreEngine::VAULT => String::from_str("vault"),
            SecretStoreEngine::INFISICAL => String::from_str("infisical"),
        }
    }

    /// Parse an engine from its command-line name; any other name is
    /// rejected with a message naming the offending input.
    pub fn from_str(s: &String) -> (r: Result<SecretStoreEngine, String>)
        ensures
            s@ == "vault"@ ==> r == Ok::<SecretStoreEngine, String>(SecretStoreEngine::VAULT),
            s@ == "infisical"@ ==> r == Ok::<SecretStoreEngine, String>(
                SecretStoreEngine::INFISICAL,
            ),
            s@ != "vault"@ && s@ != "infisical"@ ==> (r matches Err(m) && m@ == "invalid variant: "@
                + s@),
    {
        proof {
            reveal_strlit("vault");
            reveal_strlit("infisical");
            assert("vault"@.len() == 5);
            assert("infisical"@.len() == 9);
        }
        if s.eq(&String::from_str("vault")) {
            Ok(SecretStoreEngine::VAULT)
        } else if s.eq(&String::from_str("infisical")) {
            Ok(SecretStoreEngine::INFISICAL)
        } else {
            let mut message = String::from_str("invalid variant: ");
            message.append(s.as_str());
            Err(message)
        }
    }
}

/// The connection-relevant command-line input, as plain values.
pub struct ResolverArgs {
    pub connection_string: Option<String>,
    pub data_source_name: Option<String>,
    pub hostname: Option<String>,
    pub port: Option<u16>,
    pub database: Option<String>,
    pub username: Option<String>,
    pub password: Option<String>,
    pub secret_store_engine: SecretStoreEngine,
    pub address: Option<String>,
    pub token: Option<String>,
    pub store_secret: bool,
    pub secret_mount: Option<String>,
    pub secret_path: Option<String>,
}

/// Mathematical model of the resolver input.
pub struct ArgsModel {
    pub connection_string: Option<Seq<char>>,
    pub data_source_name: Option<Seq<char>>,
    pub hostname: Option<Seq<char>>,
    pub port: Option<u16>,
    pub database: Option<Seq<char>>,
    pub username: Option<Seq<char>>,
    pub password: Option<Seq<char>>,
    pub secret_store_engine: SecretStoreEngine,
    pub address: Option<Seq<char>>,
    pub token: Option<Seq<char>>,
    pub store_secret: bool,
    pub secret_mount: Option<Seq<char>>,
    pub secret_path: Option<Seq<char>>,
}

/// The view of an optional string.
pub open spec fn opt_view(o: Option<String>) -> Option<Seq<char>> {
    match o {
        Some(s) => Some(s@),
        None => None,
    }
}

impl View for ResolverArgs {
    type V = ArgsModel;

    open spec fn view(&self) -> ArgsModel {
        ArgsModel {
            connection_string: opt_view(self.connection_string),
            data_source_name: opt_view(self.data_source_name),
            hostname: opt_view(self.hostname),
            port: self.port,
            database: opt_view(self.database),
            username: opt_view(self.username),
            password: opt_view(self.password),
            secret_store_engine: self.secret_store_engine,
            address: opt_view(self.address),
            token: opt_view(self.token),
            store_secret: self.store_secret,
            secret_mount: opt_view(self.secret_mount),
            secret_path: opt_view(self.secret_path),
        }
    }
}

/// The three mutually exclusive resolution paths, in precedence order.
#[derive(Debug, Clone, Copy, PartialEq, Eq, Structural)]
pub enum ResolutionPath {
    /// An explicit connection string was supplied and is used as-is.
    ExplicitString,
    /// All discrete connection fields were supplied; a string is
    /// synthesized from them.
    DiscreteFields,
    /// Neither of the above is fully satisfied; the string comes from the
    /// secret store.
    SecretStore,
}

/// The deterministic template by which discrete connection fields are
/// synthesized into a connection string.
pub open spec fn connection_template(
    data_source_name: Seq<char>,
    hostname: Seq<char>,
    port: u16,
    database: Seq<char>,
    username: Seq<char>,
    password: Seq<char>,
) -> Seq<char> {
    "Driver={"@ + data_source_name + "};Server="@ + hostname + ";Port="@ + dec_str(port as nat)
        + ";Database="@ + database + ";Uid="@ + username + ";Password="@ + password
}

impl ArgsModel {
    /// Whether an explicit connection string was supplied.
    pub open spec fn has_connection_string(&self) -> bool {
        self.connection_string is Some
    }

    /// Whether every discrete connection field was supplied. Anything less
    /// is never synthesized into a string.
    pub open spec fn discrete_complete(&self) -> bool {
        &&& self.data_source_name is Some
        &&& self.hostname is Some
        &&& self.port is Some
        &&& self.database is Some
        &&& self.username is Some
        &&& self.password is Some
    }

    /// Which resolution path the input falls under.
    pub open spec fn resolution_path(&self) -> ResolutionPath {
        if self.has_connection_string() {
            ResolutionPath::ExplicitString
        } else if self.discrete_complete() {
            ResolutionPath::DiscreteFields
        } else {
            ResolutionPath::SecretStore
        }
    }

    /// The secret mount, with its fixed default.
    pub open spec fn effective_mount(&self) -> Seq<char> {
        match self.secret_mount {
            Some(m) => m,
            None => "secret"@,
        }
    }

    /// The secret path, with its fixed default.
    pub open spec fn effective_path(&self) -> Seq<char> {
        match self.secret_path {
            Some(p) => p,
            None => "odbc-conn"@,
        }
    }

    /// The string synthesized from the discrete fields.
    pub open spec fn synthesized(&self) -> Seq<char>
        recommends
            self.discrete_complete(),
    {
        connection_template(
            self.data_source_name->Some_0,
            self.hostname->Some_0,
            self.port->Some_0,
            self.database->Some_0,
            self.username->Some_0,
            self.password->Some_0,
        )
    }

    /// The connection string resolved without the secret store: the
    /// explicit one on the first path, the synthesized one on the second.
    pub open spec fn resolved_local(&self) -> Seq<char>
        recommends
            self.resolution_path() != ResolutionPath::SecretStore,
    {
        if self.has_connection_string() {
            self.connection_string->Some_0
        } else {
            self.synthesized()
        }
    }

    /// Whether store credentials are present.
    pub open spec fn has_store_credentials(&self) -> bool {
        self.address is Some && self.token is Some
    }
}

/// Synthesize a connection string from a complete set of discrete fields,
/// byte for byte by the fixed template.
pub fn synthesize_connection_string(
    data_source_name: &String,
    hostname: &String,
    port: u16,
    database: &String,
    username: &String,
    password: &String,
) -> (r: String)
    ensures
        r@ == connection_template(
            data_source_name@,
            hostname@,
            port,
            database@,
            username@,
            password@,
        ),
{
    let mut out = String::from_str("Driver={");
    out.append(data_source_name.as_str());
    out.append("};Server=");
    out.append(hostname.as_str());
    out.append(";Port=");
    push_dec_u64(port as u64, &mut out);
    out.append(";Database=");
    out.append(database.as_str());
    out.append(";Uid=");
    out.append(username.as_str());
    out.append(";Password=");
    out.append(password.as_str());
    proof {
        assert(out@ =~= connection_template(
            data_source_name@,
            hostname@,
            port,
            database@,
            username@,
            password@,
        ));
    }
    out
}

/// The next outside action the resolver asks for, or its terminal outcome.
/// The surrounding program performs `ReadSecret` and `WriteSecret` against
/// the store and hands the plain outcome back; `Resolved` and `Fail` end
/// the resolution.
pub enum ResolverAction {
    /// Connect to the store at `address` with `token` and read the record
    /// at {mount, path}.
    ReadSecret { address: String, token: String, mount: String, path: String },
    /// Connect to the store at `address` with `token` and overwrite the
    /// record at {mount, path} with `record`, which carries the resolved
    /// connection string.
    WriteSecret {
        address: String,
        token: String,
        mount: String,
        path: String,
        record: Vec<(String, String)>,
    },
    /// Resolution is complete: this is the effective connection string.
    Resolved { connection_string: String },
    /// Resolution failed; the invocation ends with this taxonomy member.
    Fail { error: OdbcSecretsCliError },
}

/// Mathematical model of a resolver action.
pub enum ActionModel {
    ReadSecret { address: Seq<char>, token: Seq<char>, mount: Seq<char>, path: Seq<char> },
    WriteSecret {
        address: Seq<char>,
        token: Seq<char>,
        mount: Seq<char>,
        path: Seq<char>,
        record: Seq<(Seq<char>, Seq<char>)>,
    },
    Resolved { connection_string: Seq<char> },
    Fail { error: CliErrorModel },
}

impl View for ResolverAction {
    type V = ActionModel;

    open spec fn view(&self) -> ActionModel {
        match self {
            ResolverAction::ReadSecret { address, token, mount, path } => ActionModel::ReadSecret {
                address: address@,
                token: token@,
                mount: mount@,
                path: path@,
            },
            ResolverAction::WriteSecret { address, token, mount, path, record } => ActionModel::WriteSecret {
                address: address@,
                token: token@,
                mount: mount@,
                path: path@,
                record: crate::store::record_view(record@),
            },
            ResolverAction::Resolved { connection_string } => ActionModel::Resolved {
                connection_string: connection_string@,
            },
            ResolverAction::Fail { error } => ActionModel::Fail { error: error@ },
        }
    }
}

/// The usage-error model raised when neither a connection string nor a
/// complete discrete field set nor a usable secret is available.
pub open spec fn missing_connection_error() -> CliErrorModel {
    CliErrorModel::Clap {
        message: "Provide either `--conn` or all of `--data_source_name`, `--username`, `--password`"@,
    }
}

/// The usage-error model raised when the secret-store path is taken but the
/// store address is missing.
pub open spec fn missing_address_error() -> CliErrorModel {
    CliErrorModel::Clap { message: "Specify secret service `--address`"@ }
}

/// The usage-error model raised when the secret-store path is taken but the
/// store token is missing.
pub open spec fn missing_token_error() -> CliErrorModel {
    CliErrorModel::Clap { message: "Specify secret service `--token`"@ }
}

/// The first step of resolution, before any outside work: either the
/// terminal outcome, or the single store action whose outcome decides it.
pub open spec fn start_model(a: ArgsModel) -> ActionModel {
    if a.resolution_path() == ResolutionPath::SecretStore {
        if a.secret_store_engine != SecretStoreEngine::VAULT {
            ActionModel::Fail {
                error: CliErrorModel::NotImplemented {
                    message: a.secret_store_engine.name_spec(),
                },
            }
        } else if a.address is None {
            ActionModel::Fail { error: missing_address_error() }
        } else if a.token is None {
            ActionModel::Fail { error: missing_token_error() }
        } else {
            ActionModel::ReadSecret {
                address: a.address->Some_0,
                token: a.token->Some_0,
                mount: a.effective_mount(),
                path: a.effective_path(),
            }
        }
    } else if a.store_secret && a.has_store_credentials() {
        ActionModel::WriteSecret {
            address: a.address->Some_0,
            token: a.token->Some_0,
            mount: a.effective_mount(),
            path: a.effective_path(),
            record: seq![(a.effective_path(), a.resolved_local())],
        }
    } else {
        ActionModel::Resolved { connection_string: a.resolved_local() }
    }
}

/// What a secret-store read handed back, as plain values.
pub enum SecretReadOutcome {
    /// The store could not be reached or refused the request.
    Failed { error: OdbcSecretsLibError },
    /// The coordinate exists but holds no record.
    Absent,
    /// The whole record at the coordinate.
    Record { entries: Vec<(String, String)> },
}

/// Mathematical model of a read outcome.
pub enum ReadOutcomeModel {
    Failed { error: LibErrorModel },
    Absent,
    Record { record: Seq<(Seq<char>, Seq<char>)> },
}

impl View for SecretReadOutcome {
    type V = ReadOutcomeModel;

    open spec fn view(&self) -> ReadOutcomeModel {
        match self {
            SecretReadOutcome::Failed { error } => ReadOutcomeModel::Failed { error: error@ },
            SecretReadOutcome::Absent => ReadOutcomeModel::Absent,
            SecretReadOutcome::Record { entries } => ReadOutcomeModel::Record {
                record: crate::store::record_view(entries@),
            },
        }
    }
}

/// The step after a secret-store read: a transport failure is terminal; an
/// absent record or an absent key is the usage error; otherwise the value
/// under the secret path is the effective connection string.
pub open spec fn after_read_model(a: ArgsModel, outcome: ReadOutcomeModel) -> ActionModel {
    match outcome {
        ReadOutcomeModel::Failed { error } => ActionModel::Fail {
            error: CliErrorModel::Lib { error },
        },
        ReadOutcomeModel::Absent => ActionModel::Fail { error: missing_connection_error() },
        ReadOutcomeModel::Record { record } => match crate::store::record_lookup(
            record,
            a.effective_path(),
        ) {
            None => ActionModel::Fail { error: missing_connection_error() },
            Some(value) => ActionModel::Resolved { connection_string: value },
        },
    }
}

/// The step after a write-back: a store failure is a hard error, aborting
/// before any query runs; otherwise the string that was written is the
/// effective connection string.
pub open spec fn after_write_model(a: ArgsModel, outcome: Result<(), LibErrorModel>) -> ActionModel {
    match outcome {
        Err(error) => ActionModel::Fail { error: CliErrorModel::Lib { error } },
        Ok(()) => ActionModel::Resolved { connection_string: a.resolved_local() },
    }
}

impl ResolverArgs {
    /// Whether every discrete connection field was supplied.
    pub fn discrete_complete(&self) -> (r: bool)
        ensures
            r == self@.discrete_complete(),
    {
        self.data_source_name.is_some() && self.hostname.is_some() && self.port.is_some()
            && self.database.is_some() && self.username.is_some() && self.password.is_some()
    }

    /// The secret mount, with its fixed default.
    pub fn effective_mount(&self) -> (r: String)
        ensures
            r@ == self@.effective_mount(),
    {
        match &self.secret_mount {
            Some(mount) => mount.clone(),
            None => String::from_str("secret"),
        }
    }

    /// The secret path, with its fixed default.
    pub fn effective_path(&self) -> (r: String)
        ensures
            r@ == self@.effective_path(),
    {
        match &self.secret_path {
            Some(path) => path.clone(),
            None => String::from_str("odbc-conn"),
        }
    }

    /// The connection string resolved without the secret store.
    pub fn resolved_local(&self) -> (r: String)
        requires
            self@.resolution_path() != ResolutionPath::SecretStore,
        ensures
            r@ == self@.resolved_local(),
    {
        match &self.connection_string {
            Some(s) => s.clone(),
            None => synthesize_connection_string(
                self.data_source_name.as_ref().unwrap(),
                self.hostname.as_ref().unwrap(),
                *self.port.as_ref().unwrap(),
                self.database.as_ref().unwrap(),
                self.username.as_ref().unwrap(),
                self.password.as_ref().unwrap(),
            ),
        }
    }
}

/// Begin resolution: decide, from the input alone, the terminal outcome or
/// the single store action whose outcome decides it.
pub fn resolve_start(args: &ResolverArgs) -> (r: ResolverAction)
    ensures
        r@ == start_model(args@),
{
    if args.connection_string.is_none() && !args.discrete_complete() {
        match args.secret_store_engine {
            SecretStoreEngine::INFISICAL => ResolverAction::Fail {
                error: OdbcSecretsCliError::NotImplementedError {
                    message: args.secret_store_engine.name(),
                },
            },
            SecretStoreEngine::VAULT => {
                match (&args.address, &args.token) {
                    (None, _) => ResolverAction::Fail {
                        error: OdbcSecretsCliError::ClapError {
                            message: String::from_str("Specify secret service `--address`"),
                        },
                    },
                    (Some(_), None) => ResolverAction::Fail {
                        error: OdbcSecretsCliError::ClapError {
                            message: String::from_str("Specify secret service `--token`"),
                        },
                    },
                    (Some(address), Some(token)) => ResolverAction::ReadSecret {
                        address: address.clone(),
                        token: token.clone(),
                        mount: args.effective_mount(),
                        path: args.effective_path(),
                    },
                }
            },
        }
    } else if args.store_secret && args.address.is_some() && args.token.is_some() {
        let value = args.resolved_local();
        let path = args.effective_path();
        let record = crate::store::make_secret_record(&path, &value);
        ResolverAction::WriteSecret {
            address: args.address.as_ref().unwrap().clone(),
            token: args.token.as_ref().unwrap().clone(),
            mount: args.effective_mount(),
            path,
            record,
        }
    } else {
        ResolverAction::Resolved { connection_string: args.resolved_local() }
    }
}

/// Continue resolution after the store read that `resolve_start` asked for.
pub fn resolve_after_read(args: &ResolverArgs, outcome: SecretReadOutcome) -> (r: ResolverAction)
    ensures
        r@ == after_read_model(args@, outcome@),
{
    match outcome {
        SecretReadOutcome::Failed { error } => ResolverAction::Fail {
            error: OdbcSecretsCliError::OdbcSecretsLibError { error },
        },
        SecretReadOutcome::Absent => ResolverAction::Fail { error: missing_connection_usage_error() },
        SecretReadOutcome::Record { entries } => {
            let path = args.effective_path();
            match crate::store::lookup_record(&entries, &path) {
                None => ResolverAction::Fail { error: missing_connection_usage_error() },
                Some(value) => ResolverAction::Resolved { connection_string: value },
            }
        },
    }
}

/// Continue resolution after the write-back that `resolve_start` asked for.
pub fn resolve_after_write(args: &ResolverArgs, outcome: Result<(), OdbcSecretsLibError>) -> (r:
    ResolverAction)
    requires
        args@.resolution_path() != ResolutionPath::SecretStore,
    ensures
        r@ == after_write_model(
            args@,
            match outcome {
                Ok(()) => Ok(()),
                Err(error) => Err(error@),
            },
        ),
{
    match outcome {
        Err(error) => ResolverAction::Fail {
            error: OdbcSecretsCliError::OdbcSecretsLibError { error },
        },
        Ok(()) => ResolverAction::Resolved { connection_string: args.resolved_local() },
    }
}

/// The usage error raised when no connection information can be resolved.
pub fn missing_connection_usage_error() -> (r: OdbcSecretsCliError)
    ensures
        r@ == missing_connection_error(),
{
    OdbcSecretsCliError::ClapError {
        message: String::from_str(
            "Provide either `--conn` or all of `--data_source_name`, `--username`, `--password`",
        ),
    }
}

/// Law: with the first or second path fully satisfied and no write-back in
/// effect, resolution terminates at once with the local string — the secret
/// store is never contacted.
pub proof fn lemma_no_store_contact(a: ArgsModel)
    requires
        a.resolution_path() != ResolutionPath::SecretStore,
        !(a.store_secret && a.has_store_credentials()),
    ensures
        start_model(a) == (ActionModel::Resolved { connection_string: a.resolved_local() }),
{
}

/// Law: a complete discrete field set without an explicit string resolves,
/// byte for byte, to the fixed template.
pub proof fn lemma_discrete_fields_use_template(a: ArgsModel)
    requires
        !a.has_connection_string(),
        a.discrete_complete(),
    ensures
        a.resolution_path() == ResolutionPath::DiscreteFields,
        a.resolved_local() == connection_template(
            a.data_source_name->Some_0,
            a.hostname->Some_0,
            a.port->Some_0,
            a.database->Some_0,
            a.username->Some_0,
            a.password->Some_0,
        ),
{
}

/// Law: resolution needs at most one store round trip and then terminates:
/// whatever the store answered, the step after a read or after a write is a
/// concrete connection string or a propagated error, never another request
/// and never a partial state.
pub proof fn lemma_resolution_terminates(
    a: ArgsModel,
    read: ReadOutcomeModel,
    write: Result<(), LibErrorModel>,
)
    ensures
        after_read_model(a, read) is Resolved || after_read_model(a, read) is Fail,
        after_write_model(a, write) is Resolved || after_write_model(a, write) is Fail,
{
}

/// Law: within one invocation the store is read and written at one
/// coordinate only — the effective {mount, path} of the input.
pub proof fn lemma_one_coordinate(a: ArgsModel)
    ensures
        start_model(a) matches ActionModel::ReadSecret { mount, path, .. } ==> mount
            == a.effective_mount() && path == a.effective_path(),
        start_model(a) matches ActionModel::WriteSecret { mount, path, .. } ==> mount
            == a.effective_mount() && path == a.effective_path(),
{
}

/// Law: a partially specified discrete field set (with no explicit string)
/// always falls through to the secret-store path; no string is ever
/// synthesized from it, and the first step is a store read or a terminal
/// failure.
pub proof fn lemma_partial_fields_fall_through(a: ArgsModel)
    requires
        !a.has_connection_string(),
        !a.discrete_complete(),
    ensures
        a.resolution_path() == ResolutionPath::SecretStore,
        start_model(a) is ReadSecret || start_model(a) is Fail,
{
}

} // verus!
