//! What the type checker knows while it walks a problem: the kinds of the
//! variables in scope, frame by frame, the names of the variables of the
//! model's domain, and the kind found for each token; and the signatures of
//! the functions that can be called.
use vstd::prelude::*;
use crate::consts::InputSpan;
use crate::parser::model_transformer::transform_error::{TransformError, ErrorModel};
use crate::primitives::primitive::{PrimitiveKind, KindModel, kind_models};
use crate::text::{str_eq, views};

verus! {

/// A frame as plain values: the names it declares, with their kinds.
pub type FrameView = Seq<(Seq<char>, KindModel)>;

/// A token whose kind was found: where it is written, its kind, and the
/// name it stands for, if any.
pub type TokenView = (InputSpan, KindModel, Option<Seq<char>>);

/// The type checker's knowledge as plain values.
pub struct TypeCheckerView {
    pub frames: Seq<FrameView>,
    pub domain: Seq<Seq<char>>,
    pub tokens: Seq<TokenView>,
}

/// The kind that a frame gives a name, if it declares it.
pub open spec fn frame_lookup(f: FrameView, name: Seq<char>) -> Option<KindModel>
    decreases f.len(),
{
    if f.len() == 0 {
        None
    } else if f.last().0 == name {
        Some(f.last().1)
    } else {
        frame_lookup(f.drop_last(), name)
    }
}

/// The kind of a name in the innermost frame that declares it.
pub open spec fn lookup(frames: Seq<FrameView>, name: Seq<char>) -> Option<KindModel>
    decreases frames.len(),
{
    if frames.len() == 0 {
        None
    } else {
        match frame_lookup(frames.last(), name) {
            Some(k) => Some(k),
            None => lookup(frames.drop_last(), name),
        }
    }
}

/// A frame as plain values.
pub open spec fn frame_view(f: Seq<(String, PrimitiveKind)>) -> FrameView {
    f.map_values(|e: (String, PrimitiveKind)| (e.0@, e.1.model()))
}

/// A recorded token as plain values.
pub open spec fn token_view(t: (InputSpan, PrimitiveKind, Option<String>)) -> TokenView {
    (t.0, t.1.model(), match t.2 {
        Some(s) => Some(s@),
        None => None,
    })
}

/// The error of popping the outermost frame.
pub open spec fn missing_frame() -> ErrorModel {
    ErrorModel::Other("Missing frame to pop"@)
}

/// The knowledge after declaring `name` with kind `k` in the innermost
/// frame and recording it as the token at `span`: refused when that frame
/// already declares the name (or there is no frame).
pub open spec fn spec_declare(c: TypeCheckerView, name: Seq<char>, k: KindModel, span: InputSpan) -> (
    Result<(), ErrorModel>,
    TypeCheckerView,
) {
    if c.frames.len() == 0 || frame_lookup(c.frames.last(), name) is Some {
        (Err(ErrorModel::AlreadyDeclaredVariable(name)), c)
    } else {
        (
            Ok(()),
            TypeCheckerView {
                frames: c.frames.update(c.frames.len() - 1, c.frames.last().push((name, k))),
                tokens: c.tokens.push((span, k, Some(name))),
                ..c
            },
        )
    }
}

/// The knowledge after recording a token, which declares nothing.
pub open spec fn spec_record(c: TypeCheckerView, t: TokenView) -> TypeCheckerView {
    TypeCheckerView { tokens: c.tokens.push(t), ..c }
}

/// The knowledge after opening a new, empty frame.
pub open spec fn spec_open_frame(c: TypeCheckerView) -> TypeCheckerView {
    TypeCheckerView { frames: c.frames.push(Seq::empty()), ..c }
}

/// The knowledge after closing the innermost frame: refused when it is the
/// outermost one.
pub open spec fn spec_close_frame(c: TypeCheckerView) -> (Result<(), ErrorModel>, TypeCheckerView) {
    if c.frames.len() <= 1 {
        (Err(missing_frame()), c)
    } else {
        (Ok(()), TypeCheckerView { frames: c.frames.drop_last(), ..c })
    }
}

/// The type checker's knowledge.
pub struct TypeCheckerContext {
    frames: Vec<Vec<(String, PrimitiveKind)>>,
    domain: Vec<String>,
    tokens: Vec<(InputSpan, PrimitiveKind, Option<String>)>,
}

impl View for TypeCheckerContext {
    type V = TypeCheckerView;

    closed spec fn view(&self) -> TypeCheckerView {
        TypeCheckerView {
            frames: self.frames@.map_values(|f: Vec<(String, PrimitiveKind)>| frame_view(f@)),
            domain: views(self.domain@),
            tokens: self.tokens@.map_values(|t: (InputSpan, PrimitiveKind, Option<String>)| token_view(t)),
        }
    }
}

/// Copies an optional name.
fn copy_name(o: &Option<String>) -> (r: Option<String>)
    ensures
        match (r, *o) {
            (Some(a), Some(b)) => a@ == b@,
            (None, None) => true,
            _ => false,
        },
{
    match o {
        Some(s) => Some(s.clone()),
        None => None,
    }
}

impl TypeCheckerContext {
    /// A context with one frame declaring the given constants, and the
    /// given names of domain variables; no token is recorded yet.
    pub fn new(constants: Vec<(String, PrimitiveKind)>, domain: Vec<String>) -> (r: Self)
        ensures
            r@.frames == seq![frame_view(constants@)],
            r@.domain == views(domain@),
            r@.tokens == Seq::<TokenView>::empty(),
    {
        let r = TypeCheckerContext { frames: vec![constants], domain, tokens: Vec::new() };
        proof {
            assert(r@.frames =~= seq![frame_view(constants@)]);
            assert(r@.tokens =~= Seq::<TokenView>::empty());
        }
        r
    }

    /// The kind of a variable in the innermost frame that declares it.
    pub fn value_of(&self, name: &str) -> (r: Option<PrimitiveKind>)
        ensures
            match (r, lookup(self@.frames, name@)) {
                (Some(k), Some(m)) => k.model() == m,
                (None, None) => true,
                _ => false,
            },
    {
        let ghost all = self@.frames;
        let mut i: usize = self.frames.len();
        proof {
            assert(all.take(i as int) =~= all);
        }
        while i > 0
            invariant
                i <= all.len(),
                all == self@.frames,
                lookup(all, name@) == lookup(all.take(i as int), name@),
            decreases i,
        {
            let frame = &self.frames[i - 1];
            let ghost fv = frame_view(frame@);
            proof {
                assert(fv == all[i - 1]);
                assert(all.take(i as int).last() == fv);
                assert(all.take(i as int).drop_last() =~= all.take(i - 1));
                assert(fv.take(fv.len() as int) =~= fv);
            }
            let mut j: usize = frame.len();
            while j > 0
                invariant
                    j <= frame@.len(),
                    fv == frame_view(frame@),
                    frame_lookup(fv, name@) == frame_lookup(fv.take(j as int), name@),
                    0 < i <= all.len(),
                    all == self@.frames,
                    lookup(all, name@) == lookup(all.take(i as int), name@),
                    all.take(i as int).last() == fv,
                decreases j,
            {
                proof {
                    assert(fv.take(j as int).drop_last() =~= fv.take(j - 1));
                    assert(fv.take(j as int).last() == fv[j - 1]);
                }
                if str_eq(frame[j - 1].0.as_str(), name) {
                    let k = frame[j - 1].1.duplicate();
                    proof {
                        assert(fv[j - 1] == (frame@[j - 1].0@, frame@[j - 1].1.model()));
                        assert(frame_lookup(fv, name@) == Some(k.model()));
                    }
                    return Some(k);
                }
                j -= 1;
            }
            proof {
                assert(fv.take(0) =~= Seq::<(Seq<char>, KindModel)>::empty());
            }
            i -= 1;
        }
        proof {
            assert(all.take(0) =~= Seq::<FrameView>::empty());
        }
        None
    }

    /// Whether the name is that of a variable of the model's domain.
    pub fn is_domain_variable(&self, name: &str) -> (r: bool)
        ensures
            r == self@.domain.contains(name@),
    {
        let mut i: usize = 0;
        while i < self.domain.len()
            invariant
                i <= self.domain@.len(),
                forall|j: int| 0 <= j < i ==> self@.domain[j] != name@,
            decreases self.domain.len() - i,
        {
            if str_eq(self.domain[i].as_str(), name) {
                proof {
                    assert(self@.domain[i as int] == name@);
                }
                return true;
            }
            i += 1;
        }
        false
    }

    /// Opens a new, empty frame.
    pub fn add_scope(&mut self)
        ensures
            final(self)@ == spec_open_frame(old(self)@),
    {
        let empty: Vec<(String, PrimitiveKind)> = Vec::new();
        proof {
            assert(frame_view(empty@) =~= Seq::<(Seq<char>, KindModel)>::empty());
        }
        self.frames.push(empty);
        proof {
            assert(self@.frames =~= old(self)@.frames.push(Seq::empty()));
        }
    }

    /// Closes the innermost frame; the outermost one cannot be closed.
    pub fn pop_scope(&mut self) -> (r: Result<(), TransformError>)
        ensures
            (match r {
                Ok(_) => Ok(()),
                Err(e) => Err(e.model()),
            }, final(self)@) == spec_close_frame(old(self)@),
    {
        if self.frames.len() <= 1 {
            return Err(TransformError::Other(String::from_str("Missing frame to pop")));
        }
        self.frames.pop();
        proof {
            assert(self@.frames =~= old(self)@.frames.drop_last());
        }
        Ok(())
    }

    /// Declares `name` with kind `kind` in the innermost frame and records
    /// it as the token at `span`.
    pub fn add_token_type(&mut self, kind: PrimitiveKind, span: InputSpan, name: String) -> (r: Result<
        (),
        TransformError,
    >)
        ensures
            (match r {
                Ok(_) => Ok(()),
                Err(e) => Err(e.model()),
            }, final(self)@) == spec_declare(old(self)@, name@, kind.model(), span),
    {
        if self.frames.len() == 0 {
            return Err(TransformError::AlreadyDeclaredVariable(name));
        }
        let ghost before = self.frames@;
        let mut frame = self.frames.pop().unwrap();
        let ghost fv = frame_view(frame@);
        proof {
            assert(fv == old(self)@.frames.last());
            assert(fv.take(fv.len() as int) =~= fv);
        }
        let mut j: usize = frame.len();
        while j > 0
            invariant
                j <= frame@.len(),
                fv == frame_view(frame@),
                frame_lookup(fv, name@) == frame_lookup(fv.take(j as int), name@),
                self.frames@ == before.drop_last(),
                frame == before.last(),
                self.tokens == old(self).tokens,
                self.domain == old(self).domain,
                before == old(self).frames@,
                before.len() > 0,
            decreases j,
        {
            proof {
                assert(fv.take(j as int).drop_last() =~= fv.take(j - 1));
                assert(fv.take(j as int).last() == fv[j - 1]);
            }
            if str_eq(frame[j - 1].0.as_str(), name.as_str()) {
                self.frames.push(frame);
                proof {
                    assert(self.frames@ =~= old(self).frames@);
                }
                return Err(TransformError::AlreadyDeclaredVariable(name));
            }
            j -= 1;
        }
        proof {
            assert(fv.take(0) =~= Seq::<(Seq<char>, KindModel)>::empty());
        }
        let token = (span, kind.duplicate(), Some(name.clone()));
        frame.push((name, kind));
        proof {
            assert(frame_view(frame@) =~= fv.push((name@, kind.model())));
        }
        self.frames.push(frame);
        self.tokens.push(token);
        proof {
            let c = old(self)@;
            assert(self@.frames =~= c.frames.update(c.frames.len() - 1, c.frames.last().push((name@, kind.model()))));
            assert(self@.tokens =~= c.tokens.push((span, kind.model(), Some(name@))));
        }
        Ok(())
    }

    /// Records the kind of the token at `span`, declaring nothing.
    pub fn add_token_type_or_undefined(&mut self, kind: PrimitiveKind, span: InputSpan, name: Option<String>)
        ensures
            final(self)@ == spec_record(old(self)@, token_view((span, kind, name))),
    {
        self.tokens.push((span, kind, name));
        proof {
            assert(self@.tokens =~= old(self)@.tokens.push(token_view((span, kind, name))));
        }
    }

    /// The tokens recorded so far, in the order they were found.
    pub fn tokens(&self) -> (r: Vec<(InputSpan, PrimitiveKind, Option<String>)>)
        ensures
            r@.map_values(|t: (InputSpan, PrimitiveKind, Option<String>)| token_view(t)) == self@.tokens,
    {
        let mut out: Vec<(InputSpan, PrimitiveKind, Option<String>)> = Vec::new();
        let mut i: usize = 0;
        while i < self.tokens.len()
            invariant
                i <= self.tokens@.len(),
                out@.len() == i,
                forall|j: int| 0 <= j < i ==> #[trigger] token_view(out@[j]) == token_view(self.tokens@[j]),
            decreases self.tokens.len() - i,
        {
            let t = &self.tokens[i];
            out.push((t.0, t.1.duplicate(), copy_name(&t.2)));
            i += 1;
        }
        proof {
            assert(out@.map_values(|t: (InputSpan, PrimitiveKind, Option<String>)| token_view(t)) =~= self@.tokens);
        }
        out
    }
}

/// A function that can be called: its name, its parameters with their
/// kinds, and the kind of what it returns.
#[derive(Debug)]
pub struct FunctionSignature {
    pub name: String,
    pub params: Vec<(String, PrimitiveKind)>,
    pub ret: PrimitiveKind,
}

/// The functions that can be called.
#[derive(Debug)]
pub struct FunctionContext {
    pub functions: Vec<FunctionSignature>,
}

/// The position of the first function of the name.
pub open spec fn find_function(fns: Seq<FunctionSignature>, name: Seq<char>) -> Option<int>
    decreases fns.len(),
{
    if fns.len() == 0 {
        None
    } else if fns[0].name@ == name {
        Some(0)
    } else {
        match find_function(fns.drop_first(), name) {
            Some(i) => Some(i + 1),
            None => None,
        }
    }
}

/// A found function is one of the list and has the name.
pub proof fn lemma_find_function(fns: Seq<FunctionSignature>, name: Seq<char>)
    ensures
        find_function(fns, name) matches Some(i) ==> 0 <= i < fns.len() && fns[i].name@ == name,
    decreases fns.len(),
{
    if fns.len() > 0 {
        lemma_find_function(fns.drop_first(), name);
    }
}

impl FunctionContext {
    /// The position of the first function of the name.
    pub fn function(&self, name: &str) -> (r: Option<usize>)
        ensures
            match (r, find_function(self.functions@, name@)) {
                (Some(i), Some(j)) => i == j && i < self.functions@.len(),
                (None, None) => true,
                _ => false,
            },
    {
        let mut i: usize = 0;
        proof {
            assert(self.functions@.skip(0) =~= self.functions@);
        }
        while i < self.functions.len()
            invariant
                i <= self.functions@.len(),
                find_function(self.functions@, name@) == match find_function(
                    self.functions@.skip(i as int),
                    name@,
                ) {
                    Some(j) => Some(j + i),
                    None => None::<int>,
                },
            decreases self.functions.len() - i,
        {
            proof {
                assert(self.functions@.skip(i as int).drop_first() =~= self.functions@.skip(i + 1));
            }
            if str_eq(self.functions[i].name.as_str(), name) {
                return Some(i);
            }
            i += 1;
        }
        proof {
            assert(self.functions@.skip(i as int).len() == 0);
        }
        None
    }
}

} // verus!
