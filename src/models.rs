use vstd::prelude::*;

use crate::node::{lemma_view_fields, opt_text_view, Node, NodeModel};
use crate::text::same_str;
use crate::util::{
    any_text,
    any_text_of,
    eval_node_contents,
    node_integer,
    trimmed_opt,
    trimmed_optional,
};

verus! {

#[derive(Clone, Copy, Debug, PartialEq, Eq, Structural)]
pub enum Component {
    CPU,
    GPU,
    Network,
}

#[derive(Clone, Copy, Debug, PartialEq, Eq, Structural)]
pub enum RunMode {
    Always,
    Auto,
    Never,
    Restore,
}

#[derive(Clone, Copy, Debug, PartialEq, Eq, Structural)]
pub enum CpuSched {
    Uninitialized,
    Preempted,
    Scheduled,
}

#[derive(Clone, Copy, Debug, PartialEq, Eq, Structural)]
pub enum ResultState {
    New,
    FilesDownloading,
    FilesDownloaded,
    ComputeError,
    FilesUploading,
    FilesUploaded,
    Aborted,
    UploadFailed,
}

#[derive(Clone, Copy, Debug, PartialEq, Eq, Structural)]
pub enum Process {
    Uninitialized,
    Executing,
    Suspended,
    AbortPending,
    QuitPending,
    CopyPending,
}

pub open spec fn process_code(p: Process) -> u32 {
    match p {
        Process::Uninitialized => 0,
        Process::Executing => 1,
        Process::Suspended => 9,
        Process::AbortPending => 5,
        Process::QuitPending => 8,
        Process::CopyPending => 10,
    }
}

impl Process {
    /// The number by which the daemon reports this process state.
    pub fn code(&self) -> (r: u32)
        ensures
            r == process_code(*self),
    {
        match self {
            Process::Uninitialized => 0,
            Process::Executing => 1,
            Process::Suspended => 9,
            Process::AbortPending => 5,
            Process::QuitPending => 8,
            Process::CopyPending => 10,
        }
    }
}

#[derive(Clone, Copy, Debug, PartialEq, Eq, Structural)]
pub struct VersionInfo {
    pub major: Option<i64>,
    pub minor: Option<i64>,
    pub release: Option<i64>,
}

impl Default for VersionInfo {
    fn default() -> (r: VersionInfo)
        ensures
            r.major is None && r.minor is None && r.release is None,
    {
        VersionInfo { major: None, minor: None, release: None }
    }
}

/// A version record after one more child node of its element.
pub open spec fn version_step(v: VersionInfo, n: NodeModel) -> VersionInfo {
    if n.name == "major"@ {
        VersionInfo { major: node_integer(n), ..v }
    } else if n.name == "minor"@ {
        VersionInfo { minor: node_integer(n), ..v }
    } else if n.name == "release"@ {
        VersionInfo { release: node_integer(n), ..v }
    } else {
        v
    }
}

/// The version record that these child nodes describe.
pub open spec fn version_of(c: Seq<NodeModel>) -> VersionInfo
    decreases c.len(),
{
    if c.len() == 0 {
        VersionInfo { major: None, minor: None, release: None }
    } else {
        version_step(version_of(c.drop_last()), c.last())
    }
}

impl VersionInfo {
    /// Reads a version record from the children of `node`.
    pub fn from_node(node: &Node) -> (r: VersionInfo)
        ensures
            r == version_of(node@.children),
    {
        proof {
            lemma_view_fields(node);
        }
        let ghost c = node@.children;
        let mut e = VersionInfo { major: None, minor: None, release: None };
        let mut i: usize = 0;
        while i < node.children.len()
            invariant
                c == node@.children,
                c.len() == node.children.len(),
                forall|j: int| 0 <= j < node.children.len() ==> #[trigger] c[j] == node.children[j]@,
                i <= node.children.len(),
                e == version_of(c.take(i as int)),
            decreases node.children.len() - i,
        {
            let n = &node.children[i];
            proof {
                lemma_view_fields(n);
                assert(c.take(i + 1).drop_last() =~= c.take(i as int));
            }
            let name = n.name.as_str();
            if same_str(name, "major") {
                e.major = eval_node_contents(n);
            } else if same_str(name, "minor") {
                e.minor = eval_node_contents(n);
            } else if same_str(name, "release") {
                e.release = eval_node_contents(n);
            }
            i = i + 1;
        }
        assert(c.take(c.len() as int) =~= c);
        e
    }
}

#[derive(Clone, Debug)]
pub struct Message {
    pub project_name: Option<String>,
    pub priority: Option<i64>,
    pub msg_number: Option<i64>,
    pub body: Option<String>,
    pub timestamp: Option<i64>,
}

pub struct MessageModel {
    pub project_name: Option<Seq<char>>,
    pub priority: Option<i64>,
    pub msg_number: Option<i64>,
    pub body: Option<Seq<char>>,
    pub timestamp: Option<i64>,
}

impl View for Message {
    type V = MessageModel;

    open spec fn view(&self) -> MessageModel {
        MessageModel {
            project_name: opt_text_view(self.project_name),
            priority: self.priority,
            msg_number: self.msg_number,
            body: opt_text_view(self.body),
            timestamp: self.timestamp,
        }
    }
}

impl Default for Message {
    fn default() -> (r: Message)
        ensures
            r@ == empty_message(),
    {
        Message { project_name: None, priority: None, msg_number: None, body: None, timestamp: None }
    }
}

pub open spec fn empty_message() -> MessageModel {
    MessageModel { project_name: None, priority: None, msg_number: None, body: None, timestamp: None }
}

pub open spec fn message_step(m: MessageModel, n: NodeModel) -> MessageModel {
    if n.name == "body"@ {
        MessageModel { body: trimmed_opt(n.cdata), ..m }
    } else if n.name == "project"@ {
        MessageModel { project_name: trimmed_opt(n.text), ..m }
    } else if n.name == "pri"@ {
        MessageModel { priority: node_integer(n), ..m }
    } else if n.name == "seqno"@ {
        MessageModel { msg_number: node_integer(n), ..m }
    } else if n.name == "time"@ {
        MessageModel { timestamp: node_integer(n), ..m }
    } else {
        m
    }
}

/// The message that these child nodes describe.
pub open spec fn message_of(c: Seq<NodeModel>) -> MessageModel
    decreases c.len(),
{
    if c.len() == 0 {
        empty_message()
    } else {
        message_step(message_of(c.drop_last()), c.last())
    }
}

impl Message {
    /// Reads a message from the children of `node`.
    pub fn from_node(node: &Node) -> (r: Message)
        ensures
            r@ == message_of(node@.children),
    {
        proof {
            lemma_view_fields(node);
        }
        let ghost c = node@.children;
        let mut e = Message::default();
        let mut i: usize = 0;
        while i < node.children.len()
            invariant
                c == node@.children,
                c.len() == node.children.len(),
                forall|j: int| 0 <= j < node.children.len() ==> #[trigger] c[j] == node.children[j]@,
                i <= node.children.len(),
                e@ == message_of(c.take(i as int)),
            decreases node.children.len() - i,
        {
            let n = &node.children[i];
            proof {
                lemma_view_fields(n);
                assert(c.take(i + 1).drop_last() =~= c.take(i as int));
            }
            let name = n.name.as_str();
            if same_str(name, "body") {
                e.body = trimmed_optional(&n.cdata);
            } else if same_str(name, "project") {
                e.project_name = trimmed_optional(&n.text);
            } else if same_str(name, "pri") {
                e.priority = eval_node_contents(n);
            } else if same_str(name, "seqno") {
                e.msg_number = eval_node_contents(n);
            } else if same_str(name, "time") {
                e.timestamp = eval_node_contents(n);
            }
            i = i + 1;
        }
        assert(c.take(c.len() as int) =~= c);
        e
    }
}

#[derive(Clone, Debug)]
pub struct AccountManagerInfo {
    pub url: Option<String>,
    pub name: Option<String>,
    pub have_credentials: Option<bool>,
    pub cookie_required: Option<bool>,
    pub cookie_failure_url: Option<String>,
}

pub struct AccountManagerModel {
    pub url: Option<Seq<char>>,
    pub name: Option<Seq<char>>,
    pub have_credentials: Option<bool>,
    pub cookie_required: Option<bool>,
    pub cookie_failure_url: Option<Seq<char>>,
}

impl View for AccountManagerInfo {
    type V = AccountManagerModel;

    open spec fn view(&self) -> AccountManagerModel {
        AccountManagerModel {
            url: opt_text_view(self.url),
            name: opt_text_view(self.name),
            have_credentials: self.have_credentials,
            cookie_required: self.cookie_required,
            cookie_failure_url: opt_text_view(self.cookie_failure_url),
        }
    }
}

pub open spec fn empty_account_manager() -> AccountManagerModel {
    AccountManagerModel {
        url: None,
        name: None,
        have_credentials: None,
        cookie_required: None,
        cookie_failure_url: None,
    }
}

impl Default for AccountManagerInfo {
    fn default() -> (r: AccountManagerInfo)
        ensures
            r@ == empty_account_manager(),
    {
        AccountManagerInfo {
            url: None,
            name: None,
            have_credentials: None,
            cookie_required: None,
            cookie_failure_url: None,
        }
    }
}

pub open spec fn account_manager_step(m: AccountManagerModel, n: NodeModel) -> AccountManagerModel {
    if n.name == "acct_mgr_url"@ {
        AccountManagerModel { url: trimmed_opt(any_text_of(n)), ..m }
    } else if n.name == "acct_mgr_name"@ {
        AccountManagerModel { name: trimmed_opt(any_text_of(n)), ..m }
    } else if n.name == "have_credentials"@ {
        AccountManagerModel { have_credentials: Some(true), ..m }
    } else if n.name == "cookie_required"@ {
        AccountManagerModel { cookie_required: Some(true), ..m }
    } else if n.name == "cookie_failure_url"@ {
        AccountManagerModel { cookie_failure_url: trimmed_opt(any_text_of(n)), ..m }
    } else {
        m
    }
}

/// The account manager record that these child nodes describe.
pub open spec fn account_manager_of(c: Seq<NodeModel>) -> AccountManagerModel
    decreases c.len(),
{
    if c.len() == 0 {
        empty_account_manager()
    } else {
        account_manager_step(account_manager_of(c.drop_last()), c.last())
    }
}

impl AccountManagerInfo {
    /// Reads an account manager record from the children of `node`.
    pub fn from_node(node: &Node) -> (r: AccountManagerInfo)
        ensures
            r@ == account_manager_of(node@.children),
    {
        proof {
            lemma_view_fields(node);
        }
        let ghost c = node@.children;
        let mut e = AccountManagerInfo::default();
        let mut i: usize = 0;
        while i < node.children.len()
            invariant
                c == node@.children,
                c.len() == node.children.len(),
                forall|j: int| 0 <= j < node.children.len() ==> #[trigger] c[j] == node.children[j]@,
                i <= node.children.len(),
                e@ == account_manager_of(c.take(i as int)),
            decreases node.children.len() - i,
        {
            let n = &node.children[i];
            proof {
                lemma_view_fields(n);
                assert(c.take(i + 1).drop_last() =~= c.take(i as int));
            }
            let name = n.name.as_str();
            if same_str(name, "acct_mgr_url") {
                e.url = trimmed_optional(&any_text(n));
            } else if same_str(name, "acct_mgr_name") {
                e.name = trimmed_optional(&any_text(n));
            } else if same_str(name, "have_credentials") {
                e.have_credentials = Some(true);
            } else if same_str(name, "cookie_required") {
                e.cookie_required = Some(true);
            } else if same_str(name, "cookie_failure_url") {
                e.cookie_failure_url = trimmed_optional(&any_text(n));
            }
            i = i + 1;
        }
        assert(c.take(c.len() as int) =~= c);
        e
    }
}

#[derive(Clone, Debug)]
pub struct ProjectInfo {
    pub name: Option<String>,
    pub summary: Option<String>,
    pub url: Option<String>,
    pub general_area: Option<String>,
    pub specific_area: Option<String>,
    pub description: Option<String>,
    pub home: Option<String>,
    pub platforms: Option<Vec<String>>,
    pub image: Option<String>,
}

pub struct ProjectModel {
    pub name: Option<Seq<char>>,
    pub summary: Option<Seq<char>>,
    pub url: Option<Seq<char>>,
    pub general_area: Option<Seq<char>>,
    pub specific_area: Option<Seq<char>>,
    pub description: Option<Seq<char>>,
    pub home: Option<Seq<char>>,
    pub platforms: Option<Seq<Seq<char>>>,
    pub image: Option<Seq<char>>,
}

pub open spec fn texts_view(v: Vec<String>) -> Seq<Seq<char>> {
    v@.map_values(|s: String| s@)
}

impl View for ProjectInfo {
    type V = ProjectModel;

    open spec fn view(&self) -> ProjectModel {
        ProjectModel {
            name: opt_text_view(self.name),
            summary: opt_text_view(self.summary),
            url: opt_text_view(self.url),
            general_area: opt_text_view(self.general_area),
            specific_area: opt_text_view(self.specific_area),
            description: opt_text_view(self.description),
            home: opt_text_view(self.home),
            platforms: match self.platforms {
                Some(v) => Some(texts_view(v)),
                None => None,
            },
            image: opt_text_view(self.image),
        }
    }
}

pub open spec fn empty_project() -> ProjectModel {
    ProjectModel {
        name: None,
        summary: None,
        url: None,
        general_area: None,
        specific_area: None,
        description: None,
        home: None,
        platforms: None,
        image: None,
    }
}

impl Default for ProjectInfo {
    fn default() -> (r: ProjectInfo)
        ensures
            r@ == empty_project(),
    {
        ProjectInfo {
            name: None,
            summary: None,
            url: None,
            general_area: None,
            specific_area: None,
            description: None,
            home: None,
            platforms: None,
            image: None,
        }
    }
}

/// The texts of the `platform` nodes among these, in order; one without
/// text is skipped.
pub open spec fn platform_texts(c: Seq<NodeModel>) -> Seq<Seq<char>>
    decreases c.len(),
{
    if c.len() == 0 {
        Seq::empty()
    } else {
        let prev = platform_texts(c.drop_last());
        let n = c.last();
        if n.name == "platform"@ && n.text is Some {
            prev.push(n.text->Some_0)
        } else {
            prev
        }
    }
}

pub open spec fn project_step(m: ProjectModel, n: NodeModel) -> ProjectModel {
    let t = trimmed_opt(any_text_of(n));
    if n.name == "name"@ {
        ProjectModel { name: t, ..m }
    } else if n.name == "summary"@ {
        ProjectModel { summary: t, ..m }
    } else if n.name == "url"@ {
        ProjectModel { url: t, ..m }
    } else if n.name == "general_area"@ {
        ProjectModel { general_area: t, ..m }
    } else if n.name == "specific_area"@ {
        ProjectModel { specific_area: t, ..m }
    } else if n.name == "description"@ {
        ProjectModel { description: t, ..m }
    } else if n.name == "home"@ {
        ProjectModel { home: t, ..m }
    } else if n.name == "platfroms"@ {
        ProjectModel { platforms: Some(platform_texts(n.children)), ..m }
    } else if n.name == "image"@ {
        ProjectModel { image: t, ..m }
    } else {
        m
    }
}

/// The project record that these child nodes describe.
pub open spec fn project_of(c: Seq<NodeModel>) -> ProjectModel
    decreases c.len(),
{
    if c.len() == 0 {
        empty_project()
    } else {
        project_step(project_of(c.drop_last()), c.last())
    }
}

fn platforms_of(node: &Node) -> (r: Vec<String>)
    ensures
        texts_view(r) == platform_texts(node@.children),
{
    proof {
        lemma_view_fields(node);
    }
    let ghost c = node@.children;
    let mut v: Vec<String> = Vec::new();
    let mut i: usize = 0;
    while i < node.children.len()
        invariant
            c == node@.children,
            c.len() == node.children.len(),
            forall|j: int| 0 <= j < node.children.len() ==> #[trigger] c[j] == node.children[j]@,
            i <= node.children.len(),
            texts_view(v) == platform_texts(c.take(i as int)),
        decreases node.children.len() - i,
    {
        let n = &node.children[i];
        proof {
            lemma_view_fields(n);
            assert(c.take(i + 1).drop_last() =~= c.take(i as int));
        }
        if same_str(n.name.as_str(), "platform") {
            match &n.text {
                Some(t) => {
                    let ghost before = texts_view(v);
                    v.push(t.clone());
                    assert(texts_view(v) =~= before.push(t@));
                },
                None => {},
            }
        }
        i = i + 1;
    }
    assert(c.take(c.len() as int) =~= c);
    v
}

impl ProjectInfo {
    /// Reads a project record from the children of `node`.
    pub fn from_node(node: &Node) -> (r: ProjectInfo)
        ensures
            r@ == project_of(node@.children),
    {
        proof {
            lemma_view_fields(node);
        }
        let ghost c = node@.children;
        let mut e = ProjectInfo::default();
        let mut i: usize = 0;
        while i < node.children.len()
            invariant
                c == node@.children,
                c.len() == node.children.len(),
                forall|j: int| 0 <= j < node.children.len() ==> #[trigger] c[j] == node.children[j]@,
                i <= node.children.len(),
                e@ == project_of(c.take(i as int)),
            decreases node.children.len() - i,
        {
            let n = &node.children[i];
            proof {
                lemma_view_fields(n);
                assert(c.take(i + 1).drop_last() =~= c.take(i as int));
            }
            let name = n.name.as_str();
            if same_str(name, "name") {
                e.name = trimmed_optional(&any_text(n));
            } else if same_str(name, "summary") {
                e.summary = trimmed_optional(&any_text(n));
            } else if same_str(name, "url") {
                e.url = trimmed_optional(&any_text(n));
            } else if same_str(name, "general_area") {
                e.general_area = trimmed_optional(&any_text(n));
            } else if same_str(name, "specific_area") {
                e.specific_area = trimmed_optional(&any_text(n));
            } else if same_str(name, "description") {
                e.description = trimmed_optional(&any_text(n));
            } else if same_str(name, "home") {
                e.home = trimmed_optional(&any_text(n));
            } else if same_str(name, "platfroms") {
                e.platforms = Some(platforms_of(n));
            } else if same_str(name, "image") {
                e.image = trimmed_optional(&any_text(n));
            }
            i = i + 1;
        }
        assert(c.take(c.len() as int) =~= c);
        e
    }
}

} // verus!
