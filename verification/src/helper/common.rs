//! Generic argument lists, attribute lookup, and the input of a provider
//! definition.

use crate::ident::{provider_name_text, unraw};
use crate::syntax::{Attribute, AttributeView};
use vstd::prelude::*;

verus! {

/// The views of the elements of a sequence.
pub open spec fn views_of<T: View>(v: Seq<T>) -> Seq<T::V> {
    Seq::new(v.len(), |i: int| v[i]@)
}

/// One type in a generic argument list, as far as naming and emission read
/// it.
pub enum TypeParam {
    /// A path type: the text of its path, and the text of the whole type.
    Path { path: String, text: String },
    /// The unit type `()`.
    Unit,
    /// Any other type, with its text.
    Other { text: String },
}

/// A `TypeParam` over character sequences.
pub enum TypeParamView {
    Path { path: Seq<char>, text: Seq<char> },
    Unit,
    Other { text: Seq<char> },
}

impl View for TypeParam {
    type V = TypeParamView;

    open spec fn view(&self) -> TypeParamView {
        match *self {
            TypeParam::Path { path, text } => TypeParamView::Path { path: path@, text: text@ },
            TypeParam::Unit => TypeParamView::Unit,
            TypeParam::Other { text } => TypeParamView::Other { text: text@ },
        }
    }
}

impl TypeParamView {
    /// The text of the type as it is emitted.
    pub open spec fn text(self) -> Seq<char> {
        match self {
            TypeParamView::Path { path, text } => text,
            TypeParamView::Unit => "()"@,
            TypeParamView::Other { text } => text,
        }
    }

    /// What the type contributes to a mangled name: a path its text, the
    /// unit type the word `Unit`, anything else nothing.
    pub open spec fn name(self) -> Seq<char> {
        match self {
            TypeParamView::Path { path, text } => path,
            TypeParamView::Unit => "Unit"@,
            TypeParamView::Other { text } => Seq::empty(),
        }
    }
}

/// A generic argument list `<A, B, ...>`, possibly absent.
pub struct Generics_ {
    /// Whether the opening bracket is present.
    pub lt: bool,
    /// The types between the brackets, in order.
    pub params: Vec<TypeParam>,
    /// Whether the closing bracket is present.
    pub gt: bool,
}

/// A `Generics_` over character sequences.
pub struct GenericsView {
    pub lt: bool,
    pub params: Seq<TypeParamView>,
    pub gt: bool,
}

impl View for Generics_ {
    type V = GenericsView;

    open spec fn view(&self) -> GenericsView {
        GenericsView { lt: self.lt, params: views_of(self.params@), gt: self.gt }
    }
}

/// `pre` followed by the mangled names of the first `n` types.
pub open spec fn mangled(pre: Seq<char>, params: Seq<TypeParamView>, n: nat) -> Seq<char>
    decreases n,
{
    if n == 0 {
        pre
    } else {
        mangled(pre, params, (n - 1) as nat) + params[n - 1].name()
    }
}

/// `pre` followed by the texts of the first `n` types, separated by commas.
pub open spec fn listed(pre: Seq<char>, params: Seq<TypeParamView>, n: nat) -> Seq<char>
    decreases n,
{
    if n == 0 {
        pre
    } else if n == 1 {
        pre + params[0].text()
    } else {
        listed(pre, params, (n - 1) as nat) + ", "@ + params[n - 1].text()
    }
}

/// The types rendered to one flat name, in declaration order.
pub open spec fn mangle(params: Seq<TypeParamView>) -> Seq<char> {
    mangled(Seq::empty(), params, params.len())
}

impl GenericsView {
    /// The generic arguments rendered to one flat name, in declaration order.
    pub open spec fn type_params_str(self) -> Seq<char> {
        mangle(self.params)
    }

    /// `pre` followed by the argument list as it is emitted.
    pub open spec fn push_tokens(self, pre: Seq<char>) -> Seq<char> {
        let open = if self.lt {
            pre + "<"@
        } else {
            pre
        };
        let body = listed(open, self.params, self.params.len());
        if self.gt {
            body + ">"@
        } else {
            body
        }
    }

    /// The absent argument list.
    pub open spec fn absent() -> GenericsView {
        GenericsView { lt: false, params: Seq::empty(), gt: false }
    }
}

impl Default for Generics_ {
    /// The absent argument list.
    fn default() -> (r: Self)
        ensures
            r@ == GenericsView::absent(),
    {
        let r = Generics_ { lt: false, params: Vec::new(), gt: false };
        assert(r@.params =~= Seq::empty());
        r
    }
}

impl Generics_ {
    /// Renders the generic arguments to one flat name: every path by its
    /// text, the unit type as `Unit`, concatenated in declaration order.
    pub fn type_params_str(&self) -> (r: String)
        ensures
            r@ == self@.type_params_str(),
    {
        let mut out = String::new();
        let mut i: usize = 0;
        while i < self.params.len()
            invariant
                i <= self.params.len(),
                out@ == mangled(Seq::empty(), self@.params, i as nat),
            decreases self.params.len() - i,
        {
            match &self.params[i] {
                TypeParam::Path { path, text } => {
                    out.append(path.as_str());
                },
                TypeParam::Unit => {
                    out.append("Unit");
                },
                TypeParam::Other { text } => {},
            }
            i = i + 1;
        }
        out
    }

    /// Appends the argument list as it is emitted.
    pub fn to_tokens(&self, tokens: &mut String)
        ensures
            final(tokens)@ == self@.push_tokens(old(tokens)@),
    {
        if self.lt {
            tokens.append("<");
        }
        let ghost open = tokens@;
        let mut i: usize = 0;
        while i < self.params.len()
            invariant
                i <= self.params.len(),
                tokens@ == listed(open, self@.params, i as nat),
            decreases self.params.len() - i,
        {
            if i > 0 {
                tokens.append(", ");
            }
            match &self.params[i] {
                TypeParam::Path { path, text } => {
                    tokens.append(text.as_str());
                },
                TypeParam::Unit => {
                    tokens.append("()");
                },
                TypeParam::Other { text } => {
                    tokens.append(text.as_str());
                },
            }
            i = i + 1;
        }
        if self.gt {
            tokens.append(">");
        }
    }
}

/// A mangled name reads only the types it covers.
pub proof fn lemma_mangled_prefix(
    pre: Seq<char>,
    p: Seq<TypeParamView>,
    q: Seq<TypeParamView>,
    n: nat,
)
    requires
        n <= p.len(),
        n <= q.len(),
        forall|i: int| 0 <= i < n ==> p[i] == q[i],
    ensures
        mangled(pre, p, n) == mangled(pre, q, n),
    decreases n,
{
    if n > 0 {
        lemma_mangled_prefix(pre, p, q, (n - 1) as nat);
    }
}

/// Between equal beginnings and equal endings, equal texts have equal
/// middles.
pub proof fn lemma_middle(x: Seq<char>, a: Seq<char>, b: Seq<char>, s: Seq<char>)
    requires
        x + a + s == x + b + s,
    ensures
        a == b,
{
    let l = x + a + s;
    let r = x + b + s;
    assert(l.len() == x.len() + a.len() + s.len());
    assert(r.len() == x.len() + b.len() + s.len());
    assert forall|i: int| 0 <= i < a.len() implies a[i] == b[i] by {
        assert(l[x.len() + i] == a[i]);
        assert(r[x.len() + i] == b[i]);
    }
    assert(a =~= b);
}

/// Generic disambiguation. Two instantiations of one target that agree in
/// all generic arguments but the last, and whose last arguments contribute
/// different names, have different provider names.
pub proof fn lemma_generic_disambiguation(
    target: Seq<char>,
    params: Seq<TypeParamView>,
    b: TypeParamView,
    c: TypeParamView,
)
    requires
        b.name() != c.name(),
    ensures
        provider_name_text(target, mangle(params.push(b))) != provider_name_text(
            target,
            mangle(params.push(c)),
        ),
{
    let n = params.len();
    let shared = mangled(Seq::empty(), params, n);
    lemma_mangled_prefix(Seq::empty(), params.push(b), params, n);
    lemma_mangled_prefix(Seq::empty(), params.push(c), params, n);
    assert(mangle(params.push(b)) == shared + b.name());
    assert(mangle(params.push(c)) == shared + c.name());
    let x = unraw(target) + shared;
    let s = "Provider"@;
    let with_b = provider_name_text(target, shared + b.name());
    let with_c = provider_name_text(target, shared + c.name());
    assert(with_b =~= x + b.name() + s);
    assert(with_c =~= x + c.name() + s);
    if with_b == with_c {
        lemma_middle(x, b.name(), c.name(), s);
    }
}

/// The unit type takes part in a mangled name as the word `Unit`, which
/// tells the instantiation from every one whose argument in that place
/// contributes another name.
pub proof fn lemma_unit_disambiguation(
    target: Seq<char>,
    params: Seq<TypeParamView>,
    c: TypeParamView,
)
    requires
        c.name() != "Unit"@,
    ensures
        mangle(params.push(TypeParamView::Unit)) == mangle(params) + "Unit"@,
        provider_name_text(target, mangle(params.push(TypeParamView::Unit)))
            != provider_name_text(target, mangle(params.push(c))),
{
    lemma_mangled_prefix(
        Seq::empty(),
        params.push(TypeParamView::Unit),
        params,
        params.len(),
    );
    lemma_generic_disambiguation(target, params, TypeParamView::Unit, c);
}

/// The attribute's path is the identifier `name`.
pub open spec fn is_named<V>(attr: AttributeView<V>, name: Seq<char>) -> bool {
    attr.ident == Some(name)
}

/// The position of the first attribute named `name` at or after `from`.
pub open spec fn first_named<V>(attrs: Seq<AttributeView<V>>, name: Seq<char>, from: nat) -> Option<
    int,
>
    decreases attrs.len() - from,
{
    if from >= attrs.len() {
        None
    } else if is_named(attrs[from as int], name) {
        Some(from as int)
    } else {
        first_named(attrs, name, from + 1)
    }
}

/// Finds the first attribute whose path is the identifier `name`.
pub fn attr_of<'a, A: DeepView>(attrs: &'a Vec<Attribute<A>>, name: &str) -> (r: Option<
    &'a Attribute<A>,
>)
    ensures
        match first_named(views_of(attrs@), name@, 0) {
            Some(i) => 0 <= i < attrs@.len() && r == Some(&attrs@[i]),
            None => r is None,
        },
{
    let wanted = name.to_owned();
    let mut i: usize = 0;
    while i < attrs.len()
        invariant
            i <= attrs.len(),
            wanted@ == name@,
            first_named(views_of(attrs@), name@, 0) == first_named(
                views_of(attrs@),
                name@,
                i as nat,
            ),
        decreases attrs.len() - i,
    {
        let found = match &attrs[i].ident {
            Some(id) => *id == wanted,
            None => false,
        };
        if found {
            return Some(&attrs[i]);
        }
        i = i + 1;
    }
    None
}

/// The input of a provider definition: the target, whether it is a trait
/// object, and the closure that creates the component.
pub struct DefDiProviderInput {
    /// Whether the target is written with `dyn`.
    pub kw_dyn: bool,
    pub target_ident: String,
    pub generics: Generics_,
    /// The text of the creating closure.
    pub create_fn: String,
}

/// A `DefDiProviderInput` over sequences.
pub struct DefDiProviderInputView {
    pub kw_dyn: bool,
    pub target_ident: Seq<char>,
    pub generics: GenericsView,
    pub create_fn: Seq<char>,
}

impl View for DefDiProviderInput {
    type V = DefDiProviderInputView;

    open spec fn view(&self) -> DefDiProviderInputView {
        DefDiProviderInputView {
            kw_dyn: self.kw_dyn,
            target_ident: self.target_ident@,
            generics: self.generics@,
            create_fn: self.create_fn@,
        }
    }
}

} // verus!
