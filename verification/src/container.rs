use vstd::prelude::*;
use vstd::string::{StrSliceExecFns, StringExecFns, StringSliceAdditionalSpecFns};

use crate::codec::{pack, packed_archive, simple_path, ArchiveEntry};
use crate::errors::CodecError;
use crate::language::{Language, LanguageV};
use crate::sandbox_prefix;
use crate::template::{spec_render_args, spec_render_path};

verus! {

/// One daemon-managed sandbox container: its daemon-assigned id, its
/// generated name carrying the sandbox prefix, and the execution profile it
/// was created for and stays bound to.
pub struct Container {
    pub id: String,
    pub name: String,
    pub language: Option<Language>,
}

/// Mathematical model of a sandbox container.
#[verifier::ext_equal]
pub struct ContainerV {
    pub id: Seq<char>,
    pub name: Seq<char>,
    pub language: Option<LanguageV>,
}

impl DeepView for Container {
    type V = ContainerV;

    open spec fn deep_view(&self) -> ContainerV {
        self.view()
    }
}

impl View for Container {
    type V = ContainerV;

    open spec fn view(&self) -> ContainerV {
        ContainerV {
            id: self.id@,
            name: self.name@,
            language: match self.language {
                Some(l) => Some(l@),
                None => None,
            },
        }
    }
}

impl Clone for Container {
    fn clone(&self) -> (res: Self)
        ensures
            res@ == self@,
    {
        let language = match &self.language {
            Some(l) => Some(l.clone()),
            None => None,
        };
        let res = Container { id: self.id.clone(), name: self.name.clone(), language };
        proof {
            assert(res@ =~= self@);
        }
        res
    }
}

/// Whether a container name carries the sandbox prefix.
pub open spec fn is_sandbox_name(n: Seq<char>) -> bool {
    n.len() >= sandbox_prefix().len() && n.subrange(0, sandbox_prefix().len() as int)
        == sandbox_prefix()
}

/// Relies on `uuid::Uuid::new_v4` and its hyphenated rendering: a fresh
/// random identifier, 36 characters long. Nothing is assumed about which
/// characters it holds, nor that two calls differ.
#[verifier::external_body]
fn fresh_uuid_string() -> (r: String)
    ensures
        r@.len() == 36,
{
    uuid::Uuid::new_v4().to_string()
}

/// A name for a new sandbox container: the fixed sandbox prefix followed by
/// a freshly generated unique suffix.
pub fn fresh_container_name() -> (r: String)
    ensures
        is_sandbox_name(r@),
        r@.len() == sandbox_prefix().len() + 36,
{
    let suffix = fresh_uuid_string();
    let mut name = String::from_str("dockerbot-");
    name.append(suffix.as_str());
    proof {
        assert(name@.subrange(0, sandbox_prefix().len() as int) =~= sandbox_prefix());
    }
    name
}

/// The generated in-container source file name for a container: its own name
/// followed by the profile's extension.
pub open spec fn spec_source_file_name(c: ContainerV) -> Seq<char>
    recommends
        c.language is Some,
{
    c.name + "."@ + c.language->Some_0.extension
}

/// The rendered in-container path the source file is uploaded to.
pub open spec fn spec_source_path(c: ContainerV) -> Seq<char>
    recommends
        c.language is Some,
{
    spec_render_path(c.language->Some_0.path, spec_source_file_name(c))
}

impl Container {
    /// The file name the container's source upload and commands refer to.
    pub fn source_file_name(&self) -> (r: String)
        requires
            self.language is Some,
        ensures
            r@ == spec_source_file_name(self@),
    {
        let mut name = self.name.clone();
        name.append(".");
        match &self.language {
            Some(l) => name.append(l.extension.as_str()),
            None => (),
        }
        name
    }

    /// The argument vector that runs the uploaded source, rendered from the
    /// bound profile's run template.
    pub fn run_args(&self) -> (r: Vec<String>)
        requires
            self.language is Some,
        ensures
            r.deep_view() == spec_render_args(
                self@.language->Some_0.run_command,
                spec_source_file_name(self@),
            ),
    {
        let file_name = self.source_file_name();
        match &self.language {
            Some(l) => l.get_run_command(file_name),
            None => Vec::new(),
        }
    }

    /// The argument vector of the bound profile's compile step, or `None`
    /// when the profile declares none — which is not an error.
    pub fn compile_args(&self) -> (r: Option<Vec<String>>)
        requires
            self.language is Some,
        ensures
            match self@.language->Some_0.compile_command {
                Some(t) => r matches Some(args) && args.deep_view() == spec_render_args(
                    t,
                    spec_source_file_name(self@),
                ),
                None => r is None,
            },
    {
        let file_name = self.source_file_name();
        match &self.language {
            Some(l) => l.get_compile_command(file_name),
            None => None,
        }
    }

    /// The archive that uploads the given source text to the profile's
    /// canonical path. Succeeds exactly when the rendered path is a simple
    /// relative path.
    pub fn source_archive(&self, content: &str) -> (r: Result<Vec<u8>, CodecError>)
        requires
            self.language is Some,
        ensures
            r is Ok <==> simple_path(spec_source_path(self@)),
            r matches Ok(a) ==> packed_archive(
                a@,
                seq![(spec_source_path(self@), content.spec_bytes())],
            ),
    {
        let file_name = self.source_file_name();
        let path = match &self.language {
            Some(l) => l.get_path(file_name),
            None => String::new(),
        };
        let entry = ArchiveEntry { path, payload: content.as_bytes_vec() };
        let entries = vec![entry];
        proof {
            assert(entries.deep_view() =~= seq![
                (spec_source_path(self@), content.spec_bytes()),
            ]);
            if simple_path(spec_source_path(self@)) {
                assert(forall|i: int|
                    0 <= i < entries.deep_view().len() ==> simple_path(
                        #[trigger] entries.deep_view()[i].0,
                    ));
            }
        }
        let r = pack(&entries);
        proof {
            if !simple_path(spec_source_path(self@)) {
                assert(!simple_path(entries.deep_view()[0].0));
            }
        }
        r
    }
}

/// The archive that uploads caller-supplied bytes at a caller-given relative
/// path, unchanged. Succeeds exactly when the path is a simple relative path.
pub fn attachment_archive(data: &Vec<u8>, path: &String) -> (r: Result<Vec<u8>, CodecError>)
    ensures
        r is Ok <==> simple_path(path@),
        r matches Ok(a) ==> packed_archive(a@, seq![(path@, data@)]),
{
    let entry = ArchiveEntry { path: path.clone(), payload: data.clone() };
    let entries = vec![entry];
    proof {
        assert(entries.deep_view() =~= seq![(path@, data@)]);
        if simple_path(path@) {
            assert(forall|i: int|
                0 <= i < entries.deep_view().len() ==> simple_path(
                    #[trigger] entries.deep_view()[i].0,
                ));
        }
    }
    let r = pack(&entries);
    proof {
        if !simple_path(path@) {
            assert(!simple_path(entries.deep_view()[0].0));
        }
    }
    r
}

} // verus!
