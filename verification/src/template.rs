use vstd::prelude::*;
use vstd::string::StringExecFns;

verus! {

/// One piece of a template: literal text, or the substitution point that
/// receives the source file's name when the template is rendered.
pub enum TemplatePiece {
    Lit(String),
    FileName,
}

/// Spec-level counterpart of a template piece.
pub enum PieceV {
    Lit(Seq<char>),
    FileName,
}

impl DeepView for TemplatePiece {
    type V = PieceV;

    open spec fn deep_view(&self) -> PieceV {
        match self {
            TemplatePiece::Lit(s) => PieceV::Lit(s@),
            TemplatePiece::FileName => PieceV::FileName,
        }
    }
}

impl Clone for TemplatePiece {
    fn clone(&self) -> (res: Self)
        ensures
            res.deep_view() == self.deep_view(),
    {
        match self {
            TemplatePiece::Lit(s) => TemplatePiece::Lit(s.clone()),
            TemplatePiece::FileName => TemplatePiece::FileName,
        }
    }
}

/// An in-container path template: rendered by concatenating its pieces.
pub struct PathTemplate {
    pub pieces: Vec<TemplatePiece>,
}

impl View for PathTemplate {
    type V = Seq<PieceV>;

    open spec fn view(&self) -> Seq<PieceV> {
        self.pieces.deep_view()
    }
}

/// A command template: one argument per piece. The file name is substituted
/// as a whole argument, so it never goes through whitespace splitting.
pub struct CommandTemplate {
    pub args: Vec<TemplatePiece>,
}

impl View for CommandTemplate {
    type V = Seq<PieceV>;

    open spec fn view(&self) -> Seq<PieceV> {
        self.args.deep_view()
    }
}

/// The text a piece contributes once the file name is known.
pub open spec fn piece_text(p: PieceV, file_name: Seq<char>) -> Seq<char> {
    match p {
        PieceV::Lit(s) => s,
        PieceV::FileName => file_name,
    }
}

/// The path a path template renders to: the concatenation of its pieces.
pub open spec fn spec_render_path(pieces: Seq<PieceV>, file_name: Seq<char>) -> Seq<char>
    decreases pieces.len(),
{
    if pieces.len() == 0 {
        Seq::empty()
    } else {
        spec_render_path(pieces.drop_last(), file_name) + piece_text(pieces.last(), file_name)
    }
}

/// The argument vector a command template renders to: one argument per piece.
pub open spec fn spec_render_args(pieces: Seq<PieceV>, file_name: Seq<char>) -> Seq<Seq<char>> {
    pieces.map_values(|p: PieceV| piece_text(p, file_name))
}

impl PathTemplate {
    pub fn render(&self, file_name: &String) -> (r: String)
        ensures
            r@ == spec_render_path(self@, file_name@),
    {
        let mut acc = String::new();
        let n = self.pieces.len();
        for i in 0..n
            invariant
                n == self.pieces.len(),
                acc@ == spec_render_path(self@.take(i as int), file_name@),
        {
            match &self.pieces[i] {
                TemplatePiece::Lit(s) => acc.append(s.as_str()),
                TemplatePiece::FileName => acc.append(file_name.as_str()),
            }
            proof {
                assert(self@.take(i + 1).drop_last() =~= self@.take(i as int));
                assert(self@.take(i + 1).last() == self.pieces[i as int].deep_view());
            }
        }
        proof {
            assert(self@.take(n as int) =~= self@);
        }
        acc
    }
}

impl Clone for PathTemplate {
    fn clone(&self) -> (res: Self)
        ensures
            res@ == self@,
    {
        let pieces = self.pieces.clone();
        proof {
            assert forall|i: int| 0 <= i < self.pieces.len() implies pieces.deep_view()[i]
                == self.pieces.deep_view()[i] by {
                assert(cloned::<TemplatePiece>(self.pieces[i], pieces[i]));
            }
            assert(pieces.deep_view() =~= self.pieces.deep_view());
        }
        PathTemplate { pieces }
    }
}

impl CommandTemplate {
    pub fn render(&self, file_name: &String) -> (r: Vec<String>)
        ensures
            r.deep_view() == spec_render_args(self@, file_name@),
    {
        let mut out: Vec<String> = Vec::new();
        let n = self.args.len();
        for i in 0..n
            invariant
                n == self.args.len(),
                out.deep_view() == spec_render_args(self@.take(i as int), file_name@),
        {
            let ghost pre = out.deep_view();
            match &self.args[i] {
                TemplatePiece::Lit(s) => out.push(s.clone()),
                TemplatePiece::FileName => out.push(file_name.clone()),
            }
            proof {
                let ghost piece = piece_text(self.args[i as int].deep_view(), file_name@);
                assert(out.deep_view() =~= pre.push(piece));
                assert(spec_render_args(self@.take(i + 1), file_name@) =~= pre.push(piece));
            }
        }
        proof {
            assert(self@.take(n as int) =~= self@);
        }
        out
    }
}

impl Clone for CommandTemplate {
    fn clone(&self) -> (res: Self)
        ensures
            res@ == self@,
    {
        let args = self.args.clone();
        proof {
            assert forall|i: int| 0 <= i < self.args.len() implies args.deep_view()[i]
                == self.args.deep_view()[i] by {
                assert(cloned::<TemplatePiece>(self.args[i], args[i]));
            }
            assert(args.deep_view() =~= self.args.deep_view());
        }
        CommandTemplate { args }
    }
}

} // verus!
