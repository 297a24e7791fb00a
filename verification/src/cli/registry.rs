//! The modules: a fixed list of command groups, each served under one
//! subcommand.

use vstd::prelude::*;
use vstd::string::*;
use crate::utils::text::optional_text;

verus! {

/// The command groups that talk to the agent.
#[derive(Debug, Clone, Copy, PartialEq, Eq, Structural)]
pub enum ModuleKind {
    Connections,
    Invitations,
    Credentials,
    Messages,
    Features,
    Schema,
    CredentialDefinition,
}

/// The modules in the order in which an invocation is offered to them.
pub open spec fn module_order() -> Seq<ModuleKind> {
    seq![
        ModuleKind::Connections,
        ModuleKind::Invitations,
        ModuleKind::Credentials,
        ModuleKind::Messages,
        ModuleKind::Features,
        ModuleKind::Schema,
        ModuleKind::CredentialDefinition,
    ]
}

/// The place of a module in the order.
pub open spec fn place_of(module: ModuleKind) -> int {
    match module {
        ModuleKind::Connections => 0,
        ModuleKind::Invitations => 1,
        ModuleKind::Credentials => 2,
        ModuleKind::Messages => 3,
        ModuleKind::Features => 4,
        ModuleKind::Schema => 5,
        ModuleKind::CredentialDefinition => 6,
    }
}

/// The module that is offered an invocation after `module`, if any.
pub open spec fn following(module: ModuleKind) -> Option<ModuleKind> {
    if place_of(module) + 1 < module_order().len() {
        Some(module_order()[place_of(module) + 1])
    } else {
        None
    }
}

/// The subcommand under which a module is served.
pub open spec fn subcommand_of(module: ModuleKind) -> Seq<char> {
    match module {
        ModuleKind::Connections => "connections"@,
        ModuleKind::Invitations => "invitations"@,
        ModuleKind::Credentials => "credentials"@,
        ModuleKind::Messages => "messages"@,
        ModuleKind::Features => "features"@,
        ModuleKind::Schema => "schema"@,
        ModuleKind::CredentialDefinition => "credential-definition"@,
    }
}

/// Whether `module` serves an invocation of `subcommand`.
pub open spec fn serves(module: ModuleKind, subcommand: Option<Seq<char>>) -> bool {
    subcommand == Some(subcommand_of(module))
}

/// Every module stands in the order, at its place and nowhere else.
pub proof fn lemma_order_holds_each_once(module: ModuleKind)
    ensures
        0 <= place_of(module) < module_order().len(),
        module_order()[place_of(module)] == module,
        forall|i: int|
            0 <= i < module_order().len() && #[trigger] module_order()[i] == module ==> i
                == place_of(module),
{
}

/// No two modules are served under one subcommand.
pub proof fn lemma_subcommands_distinct(one: ModuleKind, other: ModuleKind)
    requires
        one != other,
    ensures
        subcommand_of(one) != subcommand_of(other),
{
    reveal_strlit("connections");
    reveal_strlit("invitations");
    reveal_strlit("credentials");
    reveal_strlit("messages");
    reveal_strlit("features");
    reveal_strlit("schema");
    reveal_strlit("credential-definition");
    let a = subcommand_of(one);
    let b = subcommand_of(other);
    if a.len() == b.len() {
        assert(a[0] != b[0] || a[1] != b[1]);
    }
}

/// At most one module serves an invocation.
pub proof fn lemma_one_module_serves(
    one: ModuleKind,
    other: ModuleKind,
    subcommand: Option<Seq<char>>,
)
    requires
        serves(one, subcommand),
        serves(other, subcommand),
    ensures
        one == other,
{
    if one != other {
        lemma_subcommands_distinct(one, other);
    }
}

impl ModuleKind {
    /// The module that is offered an invocation first.
    pub fn first() -> (module: ModuleKind)
        ensures
            module == module_order()[0],
    {
        ModuleKind::Connections
    }

    /// The module that is offered an invocation after this one.
    pub fn next(self) -> (module: Option<ModuleKind>)
        ensures
            module == following(self),
    {
        match self {
            ModuleKind::Connections => Some(ModuleKind::Invitations),
            ModuleKind::Invitations => Some(ModuleKind::Credentials),
            ModuleKind::Credentials => Some(ModuleKind::Messages),
            ModuleKind::Messages => Some(ModuleKind::Features),
            ModuleKind::Features => Some(ModuleKind::Schema),
            ModuleKind::Schema => Some(ModuleKind::CredentialDefinition),
            ModuleKind::CredentialDefinition => None,
        }
    }

    /// The subcommand under which this module is served.
    pub fn subcommand(self) -> (name: &'static str)
        ensures
            name@ == subcommand_of(self),
    {
        match self {
            ModuleKind::Connections => "connections",
            ModuleKind::Invitations => "invitations",
            ModuleKind::Credentials => "credentials",
            ModuleKind::Messages => "messages",
            ModuleKind::Features => "features",
            ModuleKind::Schema => "schema",
            ModuleKind::CredentialDefinition => "credential-definition",
        }
    }

    /// Whether this module serves an invocation of `subcommand`.
    pub fn matches(self, subcommand: &Option<String>) -> (served: bool)
        ensures
            served == serves(self, optional_text(*subcommand)),
    {
        match subcommand {
            Some(name) => *name == String::from_str(self.subcommand()),
            None => false,
        }
    }
}

/// All modules, in the order in which an invocation is offered to them.
pub fn modules() -> (all: Vec<ModuleKind>)
    ensures
        all@ == module_order(),
{
    let mut all: Vec<ModuleKind> = Vec::new();
    all.push(ModuleKind::Connections);
    all.push(ModuleKind::Invitations);
    all.push(ModuleKind::Credentials);
    all.push(ModuleKind::Messages);
    all.push(ModuleKind::Features);
    all.push(ModuleKind::Schema);
    all.push(ModuleKind::CredentialDefinition);
    all
}

/// The module that serves `subcommand`, if there is one.
pub fn module_for(subcommand: &str) -> (found: Option<ModuleKind>)
    ensures
        match found {
            Some(module) => serves(module, Some(subcommand@)),
            None => forall|module: ModuleKind| !serves(module, Some(subcommand@)),
        },
{
    let wanted = Some(String::from_str(subcommand));
    let all = modules();
    let mut i: usize = 0;
    while i < all.len()
        invariant
            all@ == module_order(),
            optional_text(wanted) == Some(subcommand@),
            forall|j: int| 0 <= j < i ==> !serves(#[trigger] module_order()[j], Some(subcommand@)),
        decreases all.len() - i,
    {
        if all[i].matches(&wanted) {
            return Some(all[i]);
        }
        i += 1;
    }
    proof {
        assert forall|module: ModuleKind| !serves(module, Some(subcommand@)) by {
            lemma_order_holds_each_once(module);
        }
    }
    None
}

} // verus!
