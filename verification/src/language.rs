use vstd::prelude::*;
use vstd::string::StringExecFns;

use crate::template::{CommandTemplate, PathTemplate, PieceV, spec_render_args, spec_render_path};

verus! {

/// An execution profile: how to run one language. Immutable after load.
pub struct Language {
    /// Display name of the language.
    pub name: String,
    /// The aliases a submission may use to select this profile.
    pub code: Vec<String>,
    /// File extension appended to the generated source file name.
    pub extension: String,
    /// In-container path template for the source file.
    pub path: PathTemplate,
    /// Command template that runs the program.
    pub run_command: CommandTemplate,
    /// Optional command template that compiles the program first.
    pub compile_command: Option<CommandTemplate>,
    /// Container image reference the profile is bound to.
    pub image: String,
}

/// Mathematical model of an execution profile.
#[verifier::ext_equal]
pub struct LanguageV {
    pub name: Seq<char>,
    pub aliases: Seq<Seq<char>>,
    pub extension: Seq<char>,
    pub path: Seq<PieceV>,
    pub run_command: Seq<PieceV>,
    pub compile_command: Option<Seq<PieceV>>,
    pub image: Seq<char>,
}

impl View for Language {
    type V = LanguageV;

    open spec fn view(&self) -> LanguageV {
        LanguageV {
            name: self.name@,
            aliases: self.code.deep_view(),
            extension: self.extension@,
            path: self.path@,
            run_command: self.run_command@,
            compile_command: match self.compile_command {
                Some(t) => Some(t@),
                None => None,
            },
            image: self.image@,
        }
    }
}

impl DeepView for Language {
    type V = LanguageV;

    open spec fn deep_view(&self) -> LanguageV {
        self.view()
    }
}

impl Clone for Language {
    fn clone(&self) -> (res: Self)
        ensures
            res@ == self@,
    {
        let code = self.code.clone();
        let compile_command = match &self.compile_command {
            Some(t) => Some(t.clone()),
            None => None,
        };
        proof {
            assert forall|i: int| 0 <= i < self.code.len() implies code.deep_view()[i]
                == self.code.deep_view()[i] by {
                assert(cloned::<String>(self.code[i], code[i]));
            }
            assert(code.deep_view() =~= self.code.deep_view());
        }
        let res = Language {
            name: self.name.clone(),
            code,
            extension: self.extension.clone(),
            path: self.path.clone(),
            run_command: self.run_command.clone(),
            compile_command,
            image: self.image.clone(),
        };
        proof {
            assert(res@ =~= self@);
        }
        res
    }
}

impl Language {
    /// The in-container path for a file of the given name.
    pub fn get_path(&self, file_name: String) -> (r: String)
        ensures
            r@ == spec_render_path(self@.path, file_name@),
    {
        self.path.render(&file_name)
    }

    /// The argument vector that runs a file of the given name.
    pub fn get_run_command(&self, file_name: String) -> (r: Vec<String>)
        ensures
            r.deep_view() == spec_render_args(self@.run_command, file_name@),
    {
        self.run_command.render(&file_name)
    }

    /// The argument vector that compiles a file of the given name, or `None`
    /// when the profile has no compile step.
    pub fn get_compile_command(&self, file_name: String) -> (r: Option<Vec<String>>)
        ensures
            match self@.compile_command {
                Some(t) => r matches Some(args) && args.deep_view() == spec_render_args(
                    t,
                    file_name@,
                ),
                None => r is None,
            },
    {
        match &self.compile_command {
            Some(t) => Some(t.render(&file_name)),
            None => None,
        }
    }

    /// The creation options requested for this profile's sandbox containers:
    /// no network, a pseudo-terminal, a fixed memory ceiling, a bounded stop
    /// grace period, and an idle shell as the default command.
    pub fn get_container_option(&self) -> (r: ContainerOptions)
        ensures
            r.image@ == self@.image,
            r.tty == true,
            r.network_disabled == true,
            r.stop_timeout_seconds == CREATE_STOP_GRACE_SECONDS,
            r.memory_limit_bytes == MEMORY_LIMIT_BYTES,
            r.shell_command.deep_view() =~= seq!["/bin/sh"@],
    {
        let mut shell_command: Vec<String> = Vec::new();
        shell_command.push(String::from_str("/bin/sh"));
        ContainerOptions {
            image: self.image.clone(),
            tty: true,
            shell_command,
            network_disabled: true,
            stop_timeout_seconds: CREATE_STOP_GRACE_SECONDS,
            memory_limit_bytes: MEMORY_LIMIT_BYTES,
        }
    }
}

/// Memory ceiling requested for every sandbox container, in bytes (1 GiB).
pub const MEMORY_LIMIT_BYTES: i64 = 1024 * 1024 * 1024;

/// Stop grace period requested at container creation, in seconds.
pub const CREATE_STOP_GRACE_SECONDS: i64 = 30;

/// The creation options handed to the daemon boundary for a new sandbox
/// container. Plain values only; the caller translates them into the
/// daemon's own request type.
pub struct ContainerOptions {
    pub image: String,
    pub tty: bool,
    pub shell_command: Vec<String>,
    pub network_disabled: bool,
    pub stop_timeout_seconds: i64,
    pub memory_limit_bytes: i64,
}

/// Whether a profile lists the given alias.
pub open spec fn has_alias(l: LanguageV, alias: Seq<char>) -> bool {
    exists|k: int| 0 <= k < l.aliases.len() && l.aliases[k] == alias
}

/// Whether position `i` holds the first profile in `langs` listing `alias`.
pub open spec fn first_match(langs: Seq<LanguageV>, alias: Seq<char>, i: int) -> bool {
    &&& 0 <= i < langs.len()
    &&& has_alias(langs[i], alias)
    &&& forall|j: int| 0 <= j < i ==> !has_alias(#[trigger] langs[j], alias)
}

/// The static configuration: the language catalog plus the chat-side settings
/// the surrounding program needs.
pub struct Config {
    pub token: String,
    pub prefix: String,
    pub languages: Vec<Language>,
    pub owner: u64,
}

impl Config {
    /// Looks an execution profile up by alias: the first profile whose alias
    /// list contains `name`, or `None` when no profile lists it.
    pub fn get_language(&self, name: &String) -> (r: Option<Language>)
        ensures
            match r {
                Some(l) => exists|i: int|
                    #[trigger] first_match(self.languages.deep_view(), name@, i) && l@
                        == self.languages.deep_view()[i],
                None => forall|i: int|
                    0 <= i < self.languages.deep_view().len() ==> !has_alias(
                        #[trigger] self.languages.deep_view()[i],
                        name@,
                    ),
            },
    {
        let n = self.languages.len();
        for i in 0..n
            invariant
                n == self.languages.len(),
                forall|j: int|
                    0 <= j < i ==> !has_alias(#[trigger] self.languages.deep_view()[j], name@),
        {
            if alias_list_contains(&self.languages[i].code, name) {
                let l = self.languages[i].clone();
                proof {
                    assert(self.languages.deep_view()[i as int] == self.languages[i as int]@);
                    let k = choose|k: int|
                        0 <= k < self.languages[i as int].code.deep_view().len()
                            && self.languages[i as int].code.deep_view()[k] == name@;
                    assert(self.languages.deep_view()[i as int].aliases[k] == name@);
                    assert(has_alias(self.languages.deep_view()[i as int], name@));
                    assert(first_match(self.languages.deep_view(), name@, i as int));
                }
                return Some(l);
            }
        }
        None
    }
}

/// Whether the alias list contains the given name.
fn alias_list_contains(list: &Vec<String>, name: &String) -> (r: bool)
    ensures
        r == exists|k: int| 0 <= k < list.deep_view().len() && list.deep_view()[k] == name@,
{
    let n = list.len();
    for k in 0..n
        invariant
            n == list.len(),
            forall|j: int| 0 <= j < k ==> list.deep_view()[j] != name@,
    {
        if list[k].eq(name) {
            proof {
                assert(list.deep_view()[k as int] == name@);
            }
            return true;
        }
    }
    false
}

} // verus!
