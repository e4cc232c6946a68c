use vstd::prelude::*;

use crate::json::{
    dec_str, json_opt_string, json_opt_string_array, json_string, write_dec, write_json_opt_string,
    write_json_opt_string_array, write_json_string,
};
use crate::strutil::str_eq;
use vstd::string::StringSliceAdditionalSpecFns;

verus! {

// ---------------------------------------------------------------------------
// Records and their abstract models
// ---------------------------------------------------------------------------

/// Abstract content of an `EnvManager` record.
pub struct EnvManagerModel {
    pub executable_path: Seq<char>,
    pub version: Option<Seq<char>>,
}

/// A discovered environment-manager binary (pyenv, conda).
/// `executable_path` is the record's identity key.
#[derive(Debug)]
pub struct EnvManager {
    pub executable_path: String,
    pub version: Option<String>,
}

impl View for EnvManager {
    type V = EnvManagerModel;

    open spec fn view(&self) -> EnvManagerModel {
        EnvManagerModel {
            executable_path: self.executable_path@,
            version: self.version.deep_view(),
        }
    }
}

impl DeepView for EnvManager {
    type V = EnvManagerModel;

    open spec fn deep_view(&self) -> EnvManagerModel {
        self.view()
    }
}

impl EnvManager {
    pub fn new(executable_path: String, version: Option<String>) -> (r: Self)
        ensures
            r.executable_path == executable_path,
            r.version == version,
    {
        Self { executable_path, version }
    }
}

/// The closed set of manager tags an environment can carry.
#[derive(Clone, Copy, Debug, PartialEq, Eq, Structural)]
pub enum PythonEnvironmentCategory {
    System,
    Pyenv,
    Conda,
    VirtualEnv,
    VirtualEnvWrapper,
    Pipenv,
    WindowsStore,
}

/// The wire label of each category.
pub open spec fn category_label(c: PythonEnvironmentCategory) -> Seq<char> {
    match c {
        PythonEnvironmentCategory::System => "System"@,
        PythonEnvironmentCategory::Pyenv => "pyenv"@,
        PythonEnvironmentCategory::Conda => "conda"@,
        PythonEnvironmentCategory::VirtualEnv => "virtualenv"@,
        PythonEnvironmentCategory::VirtualEnvWrapper => "virtualenvwrapper"@,
        PythonEnvironmentCategory::Pipenv => "pipenv"@,
        PythonEnvironmentCategory::WindowsStore => "windowsStore"@,
    }
}

impl PythonEnvironmentCategory {
    pub fn name(&self) -> (r: String)
        ensures
            r@ == category_label(*self),
    {
        match self {
            PythonEnvironmentCategory::System => String::from_str("System"),
            PythonEnvironmentCategory::Pyenv => String::from_str("pyenv"),
            PythonEnvironmentCategory::Conda => String::from_str("conda"),
            PythonEnvironmentCategory::VirtualEnv => String::from_str("virtualenv"),
            PythonEnvironmentCategory::VirtualEnvWrapper => String::from_str("virtualenvwrapper"),
            PythonEnvironmentCategory::Pipenv => String::from_str("pipenv"),
            PythonEnvironmentCategory::WindowsStore => String::from_str("windowsStore"),
        }
    }
}

/// Abstract content of a `PythonEnvironment` record.
pub struct PythonEnvironmentModel {
    pub name: Option<Seq<char>>,
    pub python_executable_path: Seq<char>,
    pub category: PythonEnvironmentCategory,
    pub version: Option<Seq<char>>,
    pub activated_run: Option<Seq<Seq<char>>>,
    pub env_path: Option<Seq<char>>,
    pub sys_prefix_path: Option<Seq<char>>,
    pub project_path: Option<Seq<char>>,
    pub env_manager: Option<EnvManagerModel>,
}

/// One discovered interpreter installation, normalized for reporting.
/// `python_executable_path` is the record's identity key.
#[derive(Debug)]
pub struct PythonEnvironment {
    pub name: Option<String>,
    pub python_executable_path: String,
    pub category: PythonEnvironmentCategory,
    pub version: Option<String>,
    pub activated_run: Option<Vec<String>>,
    pub env_path: Option<String>,
    pub sys_prefix_path: Option<String>,
    pub project_path: Option<String>,
    pub env_manager: Option<EnvManager>,
}

impl View for PythonEnvironment {
    type V = PythonEnvironmentModel;

    open spec fn view(&self) -> PythonEnvironmentModel {
        PythonEnvironmentModel {
            name: self.name.deep_view(),
            python_executable_path: self.python_executable_path@,
            category: self.category,
            version: self.version.deep_view(),
            activated_run: self.activated_run.deep_view(),
            env_path: self.env_path.deep_view(),
            sys_prefix_path: self.sys_prefix_path.deep_view(),
            project_path: self.project_path.deep_view(),
            env_manager: self.env_manager.deep_view(),
        }
    }
}

impl DeepView for PythonEnvironment {
    type V = PythonEnvironmentModel;

    open spec fn deep_view(&self) -> PythonEnvironmentModel {
        self.view()
    }
}

impl PythonEnvironment {
    pub fn new(
        name: Option<String>,
        python_executable_path: String,
        category: PythonEnvironmentCategory,
        version: Option<String>,
        activated_run: Option<Vec<String>>,
        env_path: Option<String>,
        sys_prefix_path: Option<String>,
        project_path: Option<String>,
        env_manager: Option<EnvManager>,
    ) -> (r: Self)
        ensures
            r.name == name,
            r.python_executable_path == python_executable_path,
            r.category == category,
            r.version == version,
            r.activated_run == activated_run,
            r.env_path == env_path,
            r.sys_prefix_path == sys_prefix_path,
            r.project_path == project_path,
            r.env_manager == env_manager,
    {
        Self {
            name,
            python_executable_path,
            category,
            version,
            activated_run,
            env_path,
            sys_prefix_path,
            project_path,
            env_manager,
        }
    }
}

// ---------------------------------------------------------------------------
// Wire form of the records
// ---------------------------------------------------------------------------

/// The JSON object for an `EnvManager` record.
pub open spec fn env_manager_params_json(m: EnvManagerModel) -> Seq<char> {
    "{\"executablePath\":"@ + json_string(m.executable_path) + ",\"version\":"@ + json_opt_string(
        m.version,
    ) + "}"@
}

/// Appends the JSON object for `m` to `out`.
pub fn write_env_manager_params(out: &mut String, m: &EnvManager)
    ensures
        final(out)@ == old(out)@ + env_manager_params_json(m@),
{
    out.append("{\"executablePath\":");
    write_json_string(out, m.executable_path.as_str());
    out.append(",\"version\":");
    write_json_opt_string(out, &m.version);
    out.append("}");
    proof {
        assert(out@ =~= old(out)@ + env_manager_params_json(m@));
    }
}

/// The JSON value for an optional `EnvManager` reference.
pub open spec fn opt_env_manager_json(m: Option<EnvManagerModel>) -> Seq<char> {
    match m {
        Some(v) => env_manager_params_json(v),
        None => seq!['n', 'u', 'l', 'l'],
    }
}

/// The opening of the record's JSON object: name, executable path and
/// category.
pub open spec fn environment_json_head(e: PythonEnvironmentModel) -> Seq<char> {
    "{\"name\":"@ + json_opt_string(e.name) + ",\"pythonExecutablePath\":"@ + json_string(
        e.python_executable_path,
    ) + ",\"category\":"@ + json_string(category_label(e.category))
}

/// The middle of the record's JSON object: version, activation command and
/// environment root.
pub open spec fn environment_json_mid(e: PythonEnvironmentModel) -> Seq<char> {
    ",\"version\":"@ + json_opt_string(e.version) + ",\"activatedRun\":"@ + json_opt_string_array(
        e.activated_run,
    ) + ",\"envPath\":"@ + json_opt_string(e.env_path)
}

/// The tail of the record's JSON object: sys prefix, project binding and
/// manager reference.
pub open spec fn environment_json_tail(e: PythonEnvironmentModel) -> Seq<char> {
    ",\"sysPrefixPath\":"@ + json_opt_string(e.sys_prefix_path) + ",\"projectPath\":"@
        + json_opt_string(e.project_path) + ",\"envManager\":"@ + opt_env_manager_json(
        e.env_manager,
    ) + "}"@
}

/// The JSON object for a `PythonEnvironment` record, every optional
/// attribute present and `null` when absent.
pub open spec fn python_environment_params_json(e: PythonEnvironmentModel) -> Seq<char> {
    environment_json_head(e) + environment_json_mid(e) + environment_json_tail(e)
}

/// Appends the JSON object for `e` to `out`.
#[verifier::rlimit(100)]
pub fn write_python_environment_params(out: &mut String, e: &PythonEnvironment)
    ensures
        final(out)@ == old(out)@ + python_environment_params_json(e@),
{
    out.append("{\"name\":");
    write_json_opt_string(out, &e.name);
    out.append(",\"pythonExecutablePath\":");
    write_json_string(out, e.python_executable_path.as_str());
    out.append(",\"category\":");
    let label = e.category.name();
    write_json_string(out, label.as_str());
    proof {
        assert(out@ =~= old(out)@ + environment_json_head(e@));
    }
    let ghost after_head = out@;
    out.append(",\"version\":");
    write_json_opt_string(out, &e.version);
    out.append(",\"activatedRun\":");
    write_json_opt_string_array(out, &e.activated_run);
    out.append(",\"envPath\":");
    write_json_opt_string(out, &e.env_path);
    proof {
        assert(out@ =~= after_head + environment_json_mid(e@));
    }
    let ghost after_mid = out@;
    out.append(",\"sysPrefixPath\":");
    write_json_opt_string(out, &e.sys_prefix_path);
    out.append(",\"projectPath\":");
    write_json_opt_string(out, &e.project_path);
    out.append(",\"envManager\":");
    match &e.env_manager {
        Some(m) => write_env_manager_params(out, m),
        None => crate::json::write_null(out),
    }
    out.append("}");
    proof {
        assert(out@ =~= after_mid + environment_json_tail(e@));
        assert(out@ =~= old(out)@ + python_environment_params_json(e@));
    }
}

// ---------------------------------------------------------------------------
// Messages
// ---------------------------------------------------------------------------

/// A report of one manager binary.
pub struct EnvManagerMessage {
    pub jsonrpc: String,
    pub method: String,
    pub params: EnvManager,
}

/// The wire form of an `EnvManagerMessage`.
pub open spec fn env_manager_message_json(m: EnvManagerMessage) -> Seq<char> {
    "{\"jsonrpc\":"@ + json_string(m.jsonrpc@) + ",\"method\":"@ + json_string(m.method@)
        + ",\"params\":"@ + env_manager_params_json(m.params@) + "}"@
}

impl EnvManagerMessage {
    pub fn new(params: EnvManager) -> (r: Self)
        ensures
            r.jsonrpc@ == "2.0"@,
            r.method@ == "envManager"@,
            r.params == params,
    {
        Self { jsonrpc: String::from_str("2.0"), method: String::from_str("envManager"), params }
    }

    pub fn to_json(&self) -> (r: String)
        ensures
            r@ == env_manager_message_json(*self),
    {
        let mut out = String::new();
        out.append("{\"jsonrpc\":");
        write_json_string(&mut out, self.jsonrpc.as_str());
        out.append(",\"method\":");
        write_json_string(&mut out, self.method.as_str());
        out.append(",\"params\":");
        write_env_manager_params(&mut out, &self.params);
        out.append("}");
        proof {
            assert(out@ =~= env_manager_message_json(*self));
        }
        out
    }
}

/// A report of one discovered environment.
pub struct PythonEnvironmentMessage {
    pub jsonrpc: String,
    pub method: String,
    pub params: PythonEnvironment,
}

/// The wire form of a `PythonEnvironmentMessage`.
pub open spec fn python_environment_message_json(m: PythonEnvironmentMessage) -> Seq<char> {
    "{\"jsonrpc\":"@ + json_string(m.jsonrpc@) + ",\"method\":"@ + json_string(m.method@)
        + ",\"params\":"@ + python_environment_params_json(m.params@) + "}"@
}

impl PythonEnvironmentMessage {
    pub fn new(params: PythonEnvironment) -> (r: Self)
        ensures
            r.jsonrpc@ == "2.0"@,
            r.method@ == "pythonEnvironment"@,
            r.params == params,
    {
        Self {
            jsonrpc: String::from_str("2.0"),
            method: String::from_str("pythonEnvironment"),
            params,
        }
    }

    pub fn to_json(&self) -> (r: String)
        ensures
            r@ == python_environment_message_json(*self),
    {
        let mut out = String::new();
        out.append("{\"jsonrpc\":");
        write_json_string(&mut out, self.jsonrpc.as_str());
        out.append(",\"method\":");
        write_json_string(&mut out, self.method.as_str());
        out.append(",\"params\":");
        write_python_environment_params(&mut out, &self.params);
        out.append("}");
        proof {
            assert(out@ =~= python_environment_message_json(*self));
        }
        out
    }
}

/// The final message of a run; its params are always `null`.
pub struct ExitMessage {
    pub jsonrpc: String,
    pub method: String,
}

/// The wire form of an `ExitMessage`.
pub open spec fn exit_message_json(m: ExitMessage) -> Seq<char> {
    "{\"jsonrpc\":"@ + json_string(m.jsonrpc@) + ",\"method\":"@ + json_string(m.method@)
        + ",\"params\":null}"@
}

impl ExitMessage {
    pub fn new() -> (r: Self)
        ensures
            r.jsonrpc@ == "2.0"@,
            r.method@ == "exit"@,
    {
        Self { jsonrpc: String::from_str("2.0"), method: String::from_str("exit") }
    }

    pub fn to_json(&self) -> (r: String)
        ensures
            r@ == exit_message_json(*self),
    {
        let mut out = String::new();
        out.append("{\"jsonrpc\":");
        write_json_string(&mut out, self.jsonrpc.as_str());
        out.append(",\"method\":");
        write_json_string(&mut out, self.method.as_str());
        out.append(",\"params\":null}");
        proof {
            assert(out@ =~= exit_message_json(*self));
        }
        out
    }
}

// ---------------------------------------------------------------------------
// The dispatcher and its dedup discipline
// ---------------------------------------------------------------------------

/// The complete wire form of an environment report.
pub open spec fn python_environment_report_json(e: PythonEnvironmentModel) -> Seq<char> {
    "{\"jsonrpc\":"@ + json_string("2.0"@) + ",\"method\":"@ + json_string("pythonEnvironment"@)
        + ",\"params\":"@ + python_environment_params_json(e) + "}"@
}

/// The complete wire form of a manager report.
pub open spec fn env_manager_report_json(m: EnvManagerModel) -> Seq<char> {
    "{\"jsonrpc\":"@ + json_string("2.0"@) + ",\"method\":"@ + json_string("envManager"@)
        + ",\"params\":"@ + env_manager_params_json(m) + "}"@
}

/// The complete wire form of the exit message.
pub open spec fn exit_report_json() -> Seq<char> {
    "{\"jsonrpc\":"@ + json_string("2.0"@) + ",\"method\":"@ + json_string("exit"@)
        + ",\"params\":null}"@
}

/// Abstract state of a `Dispatcher`: which identities have been reported,
/// and the messages sent so far, in order.
pub struct DispatcherModel {
    pub seen_envs: Seq<Seq<char>>,
    pub seen_managers: Seq<Seq<char>>,
    pub messages: Seq<Seq<char>>,
}

/// Routes records to the transport, deduplicating by executable path:
/// the first report of a path wins, later ones are silently dropped.
pub struct Dispatcher {
    pub seen_env_paths: Vec<String>,
    pub seen_manager_paths: Vec<String>,
    pub messages: Vec<String>,
}

impl View for Dispatcher {
    type V = DispatcherModel;

    open spec fn view(&self) -> DispatcherModel {
        DispatcherModel {
            seen_envs: self.seen_env_paths.deep_view(),
            seen_managers: self.seen_manager_paths.deep_view(),
            messages: self.messages.deep_view(),
        }
    }
}

/// What reporting an environment does to the dispatcher state: nothing when
/// its executable path was already reported, else one new message and the
/// path marked seen.
pub open spec fn spec_report_environment(
    m: DispatcherModel,
    e: PythonEnvironmentModel,
) -> DispatcherModel {
    if m.seen_envs.contains(e.python_executable_path) {
        m
    } else {
        DispatcherModel {
            seen_envs: m.seen_envs.push(e.python_executable_path),
            seen_managers: m.seen_managers,
            messages: m.messages.push(python_environment_report_json(e)),
        }
    }
}

/// What reporting a manager does to the dispatcher state, with the same
/// first-wins dedup keyed on the manager's executable path.
pub open spec fn spec_report_environment_manager(
    m: DispatcherModel,
    mgr: EnvManagerModel,
) -> DispatcherModel {
    if m.seen_managers.contains(mgr.executable_path) {
        m
    } else {
        DispatcherModel {
            seen_envs: m.seen_envs,
            seen_managers: m.seen_managers.push(mgr.executable_path),
            messages: m.messages.push(env_manager_report_json(mgr)),
        }
    }
}

fn contains_string(v: &Vec<String>, s: &String) -> (r: bool)
    ensures
        r == v.deep_view().contains(s@),
{
    let n: usize = v.len();
    let mut i: usize = 0;
    while i < n
        invariant
            0 <= i <= n,
            n == v.len(),
            forall|j: int| 0 <= j < i ==> v.deep_view()[j] != s@,
        decreases n - i,
    {
        if str_eq(v[i].as_str(), s.as_str()) {
            proof {
                assert(v.deep_view()[i as int] == s@);
            }
            return true;
        }
        i = i + 1;
    }
    proof {
        assert(forall|j: int| 0 <= j < v.deep_view().len() ==> v.deep_view()[j] != s@);
    }
    false
}

impl Dispatcher {
    pub fn new() -> (r: Dispatcher)
        ensures
            r@.seen_envs =~= Seq::<Seq<char>>::empty(),
            r@.seen_managers =~= Seq::<Seq<char>>::empty(),
            r@.messages =~= Seq::<Seq<char>>::empty(),
    {
        Dispatcher {
            seen_env_paths: Vec::new(),
            seen_manager_paths: Vec::new(),
            messages: Vec::new(),
        }
    }

    /// Sends `e` unless an environment with the same executable path has
    /// already been sent this run.
    pub fn report_environment(&mut self, e: &PythonEnvironment)
        ensures
            final(self)@ == spec_report_environment(old(self)@, e@),
    {
        if contains_string(&self.seen_env_paths, &e.python_executable_path) {
            return ;
        }
        let mut body = String::new();
        body.append("{\"jsonrpc\":");
        write_json_string(&mut body, "2.0");
        body.append(",\"method\":");
        write_json_string(&mut body, "pythonEnvironment");
        body.append(",\"params\":");
        write_python_environment_params(&mut body, e);
        body.append("}");
        proof {
            assert(body@ =~= python_environment_report_json(e@));
        }
        self.seen_env_paths.push(e.python_executable_path.clone());
        self.messages.push(body);
        proof {
            assert(self.seen_env_paths.deep_view() =~= old(self)@.seen_envs.push(
                e.python_executable_path@,
            ));
            assert(self.messages.deep_view() =~= old(self)@.messages.push(
                python_environment_report_json(e@),
            ));
        }
    }

    /// Sends `mgr` unless a manager with the same executable path has
    /// already been sent this run.
    pub fn report_environment_manager(&mut self, mgr: &EnvManager)
        ensures
            final(self)@ == spec_report_environment_manager(old(self)@, mgr@),
    {
        if contains_string(&self.seen_manager_paths, &mgr.executable_path) {
            return ;
        }
        let mut body = String::new();
        body.append("{\"jsonrpc\":");
        write_json_string(&mut body, "2.0");
        body.append(",\"method\":");
        write_json_string(&mut body, "envManager");
        body.append(",\"params\":");
        write_env_manager_params(&mut body, mgr);
        body.append("}");
        proof {
            assert(body@ =~= env_manager_report_json(mgr@));
        }
        self.seen_manager_paths.push(mgr.executable_path.clone());
        self.messages.push(body);
        proof {
            assert(self.seen_manager_paths.deep_view() =~= old(self)@.seen_managers.push(
                mgr.executable_path@,
            ));
            assert(self.messages.deep_view() =~= old(self)@.messages.push(env_manager_report_json(
                mgr@,
            )));
        }
    }

    /// Sends the exit message; never deduplicated.
    pub fn report_exit(&mut self)
        ensures
            final(self)@.messages == old(self)@.messages.push(exit_report_json()),
            final(self)@.seen_envs == old(self)@.seen_envs,
            final(self)@.seen_managers == old(self)@.seen_managers,
    {
        let msg = ExitMessage::new();
        let body = msg.to_json();
        proof {
            assert(body@ =~= exit_report_json());
        }
        self.messages.push(body);
        proof {
            assert(self.messages.deep_view() =~= old(self)@.messages.push(exit_report_json()));
        }
    }
}

/// The records of `envs` from index `i` on, reported in order.
pub open spec fn spec_report_all(
    m: DispatcherModel,
    envs: Seq<PythonEnvironmentModel>,
    i: int,
) -> DispatcherModel
    decreases envs.len() - i,
{
    if 0 <= i && i < envs.len() {
        spec_report_all(spec_report_environment(m, envs[i]), envs, i + 1)
    } else {
        m
    }
}

/// Reports every record of `envs` in order, each through the dedup
/// discipline.
pub fn report_all(d: &mut Dispatcher, envs: &Vec<PythonEnvironment>)
    ensures
        final(d)@ == spec_report_all(old(d)@, envs.deep_view(), 0),
{
    let ghost dv = envs.deep_view();
    let n: usize = envs.len();
    let mut i: usize = 0;
    while i < n
        invariant
            0 <= i <= n,
            n == envs@.len(),
            dv == envs.deep_view(),
            dv.len() == n,
            spec_report_all(d@, dv, i as int) == spec_report_all(old(d)@, dv, 0),
        decreases n - i,
    {
        let ghost prev = d@;
        proof {
            assert(dv[i as int] == envs@[i as int].deep_view());
        }
        d.report_environment(&envs[i]);
        proof {
            assert(spec_report_all(prev, dv, i as int) == spec_report_all(d@, dv, i + 1));
        }
        i = i + 1;
    }
    proof {
        assert(spec_report_all(d@, dv, n as int) == d@);
    }
}

// ---------------------------------------------------------------------------
// Dedup is first-wins: reporting an identity twice changes nothing
// ---------------------------------------------------------------------------

/// Once any environment with a given executable path has been reported,
/// a later report of any environment with that same path leaves the
/// dispatcher unchanged: exactly one message per executable path, and the
/// first record wins.
pub proof fn lemma_report_environment_dedup(
    m: DispatcherModel,
    e1: PythonEnvironmentModel,
    e2: PythonEnvironmentModel,
)
    requires
        e1.python_executable_path == e2.python_executable_path,
    ensures
        spec_report_environment(spec_report_environment(m, e1), e2) == spec_report_environment(
            m,
            e1,
        ),
{
    let p = e1.python_executable_path;
    let m1 = spec_report_environment(m, e1);
    if m.seen_envs.contains(p) {
        assert(m1.seen_envs.contains(p));
    } else {
        assert(m1.seen_envs[m.seen_envs.len() as int] == p);
        assert(m1.seen_envs.contains(p));
    }
}

/// The same first-wins discipline holds of manager reports.
pub proof fn lemma_report_manager_dedup(
    m: DispatcherModel,
    m1: EnvManagerModel,
    m2: EnvManagerModel,
)
    requires
        m1.executable_path == m2.executable_path,
    ensures
        spec_report_environment_manager(spec_report_environment_manager(m, m1), m2)
            == spec_report_environment_manager(m, m1),
{
    let p = m1.executable_path;
    let s1 = spec_report_environment_manager(m, m1);
    if m.seen_managers.contains(p) {
        assert(s1.seen_managers.contains(p));
    } else {
        assert(s1.seen_managers[m.seen_managers.len() as int] == p);
        assert(s1.seen_managers.contains(p));
    }
}

// ---------------------------------------------------------------------------
// The raw message buffer: what was sent this run, in order
// ---------------------------------------------------------------------------

/// Appends a raw, already-serialized message to the dispatcher's buffer.
pub fn send_rpc_message(d: &mut Dispatcher, message: String)
    ensures
        final(d)@.messages == old(d)@.messages.push(message@),
        final(d)@.seen_envs == old(d)@.seen_envs,
        final(d)@.seen_managers == old(d)@.seen_managers,
{
    d.messages.push(message);
    proof {
        assert(d.messages.deep_view() =~= old(d)@.messages.push(message@));
    }
}

/// Drops every buffered message; the seen identities are kept.
pub fn clear_rpc_messages(d: &mut Dispatcher)
    ensures
        final(d)@.messages =~= Seq::<Seq<char>>::empty(),
        final(d)@.seen_envs == old(d)@.seen_envs,
        final(d)@.seen_managers == old(d)@.seen_managers,
{
    d.messages.clear();
    proof {
        assert(d.messages.deep_view() =~= Seq::<Seq<char>>::empty());
    }
}

/// The messages buffered so far, in the order they were sent.
pub fn get_rpc_messages(d: &Dispatcher) -> (r: Vec<String>)
    ensures
        r.deep_view() == d@.messages,
{
    broadcast use vstd::std_specs::vec::vec_clone_deep_view_proof;

    d.messages.clone()
}

// ---------------------------------------------------------------------------
// Frames of the wire protocol
// ---------------------------------------------------------------------------

/// Wraps one message body in the transport frame: a `Content-Length`
/// header holding the body's byte length, a constant `Content-Type`
/// header, a blank line, then the body.
pub fn frame_rpc_message(body: &str) -> (r: String)
    requires
        body.spec_bytes().len() <= usize::MAX,
    ensures
        r@ == "Content-Length: "@ + dec_str(body.spec_bytes().len() as int)
            + "\r\nContent-Type: application/vscode-jsonrpc; charset=utf-8\r\n\r\n"@ + body@,
{
    let mut out = String::from_str("Content-Length: ");
    write_dec(&mut out, body.len());
    out.append("\r\nContent-Type: application/vscode-jsonrpc; charset=utf-8\r\n\r\n");
    out.append(body);
    proof {
        assert(out@ =~= "Content-Length: "@ + dec_str(body.spec_bytes().len() as int)
            + "\r\nContent-Type: application/vscode-jsonrpc; charset=utf-8\r\n\r\n"@ + body@);
    }
    out
}

} // verus!
