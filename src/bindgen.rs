//! The binding generator: a declarative block of foreign function signatures
//! is checked, turned into descriptors, and emitted as the source text of a
//! function-pointer table, its loader and one typed accessor per function.
use vstd::prelude::*;
use vstd::string::StrSliceExecFns;
use vstd::utf8::encode_utf8;
use crate::literal::{byte_string_literal_value, code_points, string_literal_value};
use crate::text::{trim_end, trim_end_char, trim_start, trim_start_char};

verus! {

/// A parameter of a declared foreign function, as written.
pub enum ParamDecl {
    /// A plain binding `name: Type`: its name and the text of its type.
    Named(String, String),
    /// A typed parameter whose pattern is not a plain name (a destructuring).
    Pattern,
    /// A receiver (`self`, `&self`, ...).
    Receiver,
}

/// A foreign function as declared.
pub struct FnDecl {
    /// The function's name.
    pub name: String,
    /// The argument text of its symbol annotation, parentheses included
    /// (`(cuInit)`), when it has one.
    pub symbol_attr: Option<String>,
    pub params: Vec<ParamDecl>,
    /// The text of its return type, arrow included (`-> Status`), or empty.
    pub ret: String,
}

/// A declarative block: an optional library-name annotation and the foreign
/// functions, in order.
pub struct ForeignBlock {
    /// The argument text of the library-name annotation, parentheses and
    /// quotes included (`("cuda")`), when it has one.
    pub libname_attr: Option<String>,
    pub functions: Vec<FnDecl>,
}

/// Why a block was refused.
#[derive(Clone, Copy, Debug, PartialEq, Eq, Structural)]
pub enum SpecError {
    /// A parameter is not a plain named binding.
    ExpectIdentifier,
    /// A receiver parameter is present.
    InvalidParameter,
}

impl SpecError {
    pub open spec fn spec_message(self) -> Seq<char> {
        match self {
            SpecError::ExpectIdentifier => "Expect Identifier"@,
            SpecError::InvalidParameter => "Invalid parameter"@,
        }
    }

    /// A sentence that describes the error.
    pub fn message(&self) -> (r: &'static str)
        ensures
            r@ == self.spec_message(),
    {
        match self {
            SpecError::ExpectIdentifier => "Expect Identifier",
            SpecError::InvalidParameter => "Invalid parameter",
        }
    }
}

/// A parameter of a checked signature.
pub struct Param {
    pub name: String,
    pub ty: String,
}

/// One declared function, ready for emission.
pub struct Descriptor {
    /// The name of its table field: `ptr_` and the function's name.
    pub ptr_name: String,
    pub parameters: Vec<Param>,
    pub fn_ident: String,
    /// The symbol to resolve, as a NUL-terminated byte string.
    pub symbol: Vec<u8>,
    pub ret_type: String,
}

/// A checked block.
pub struct DlLinkItem {
    /// The library to open, when the block names one.
    pub libname: Option<String>,
    pub descriptors: Vec<Descriptor>,
}

pub open spec fn param_error(p: ParamDecl) -> Option<SpecError> {
    match p {
        ParamDecl::Named(_, _) => None,
        ParamDecl::Pattern => Some(SpecError::ExpectIdentifier),
        ParamDecl::Receiver => Some(SpecError::InvalidParameter),
    }
}

/// The error of the first parameter that is not a plain named binding.
pub open spec fn params_error(ps: Seq<ParamDecl>) -> Option<SpecError>
    decreases ps.len(),
{
    if ps.len() == 0 {
        None
    } else if params_error(ps.drop_last()) is Some {
        params_error(ps.drop_last())
    } else {
        param_error(ps.last())
    }
}

/// The error of the first function, in order, that has a refused parameter.
pub open spec fn block_error(fs: Seq<FnDecl>) -> Option<SpecError>
    decreases fs.len(),
{
    if fs.len() == 0 {
        None
    } else if block_error(fs.drop_last()) is Some {
        block_error(fs.drop_last())
    } else {
        params_error(fs.last().params@)
    }
}

/// The text inside an annotation's parentheses.
pub open spec fn unparenthesized(t: Seq<char>) -> Seq<char> {
    trim_end(trim_start(t, '('), ')')
}

/// The library name that a library-name annotation gives.
pub open spec fn libname_of(t: Seq<char>) -> Seq<char> {
    trim_end(trim_start(unparenthesized(t), '"'), '"')
}

/// The symbol of a declared function: its annotation's, else its name.
pub open spec fn symbol_of(f: FnDecl) -> Seq<char> {
    match f.symbol_attr {
        Some(t) => unparenthesized(t@),
        None => f.name@,
    }
}

pub open spec fn describes_param(p: Param, d: ParamDecl) -> bool {
    match d {
        ParamDecl::Named(n, t) => p.name@ == n@ && p.ty@ == t@,
        _ => false,
    }
}

/// `d` is the descriptor of the declared function `f`.
pub open spec fn describes(d: Descriptor, f: FnDecl) -> bool {
    &&& d.ptr_name@ == "ptr_"@ + f.name@
    &&& d.fn_ident@ == f.name@
    &&& d.ret_type@ == f.ret@
    &&& d.symbol@ == encode_utf8(symbol_of(f)).push(0u8)
    &&& d.parameters@.len() == f.params@.len()
    &&& forall|i: int| 0 <= i < d.parameters@.len() ==> describes_param(#[trigger] d.parameters@[i], f.params@[i])
}

/// `item` is the checked form of `block`.
pub open spec fn parsed(item: DlLinkItem, block: ForeignBlock) -> bool {
    &&& match (item.libname, block.libname_attr) {
        (Some(n), Some(t)) => n@ == libname_of(t@),
        (None, None) => true,
        _ => false,
    }
    &&& item.descriptors@.len() == block.functions@.len()
    &&& forall|i: int| 0 <= i < item.descriptors@.len() ==> describes(#[trigger] item.descriptors@[i], block.functions@[i])
}

/// The text inside an annotation's parentheses.
fn unparenthesize(t: &String) -> (r: String)
    ensures
        r@ == unparenthesized(t@),
{
    let a = trim_start_char(t.as_str(), '(');
    trim_end_char(a.as_str(), ')')
}

fn append_str(out: &mut String, s: &str)
    ensures
        final(out)@ == old(out)@ + s@,
{
    out.append(s);
}

impl Descriptor {
    /// Checks one declared function and builds its descriptor.
    pub fn parse(f: &FnDecl) -> (r: Result<Descriptor, SpecError>)
        ensures
            match r {
                Ok(d) => params_error(f.params@) is None && describes(d, *f),
                Err(e) => params_error(f.params@) == Some(e),
            },
    {
        let mut parameters: Vec<Param> = Vec::new();
        let mut i: usize = 0;
        while i < f.params.len()
            invariant
                i <= f.params@.len(),
                params_error(f.params@.take(i as int)) is None,
                parameters@.len() == i,
                forall|j: int| 0 <= j < i ==> describes_param(#[trigger] parameters@[j], f.params@[j]),
            decreases f.params@.len() - i,
        {
            assert(f.params@.take(i + 1).drop_last() =~= f.params@.take(i as int));
            match &f.params[i] {
                ParamDecl::Named(n, t) => {
                    parameters.push(Param { name: n.clone(), ty: t.clone() });
                },
                ParamDecl::Pattern => {
                    proof {
                        lemma_params_error_prefix(f.params@, i as int + 1);
                    }
                    return Err(SpecError::ExpectIdentifier);
                },
                ParamDecl::Receiver => {
                    proof {
                        lemma_params_error_prefix(f.params@, i as int + 1);
                    }
                    return Err(SpecError::InvalidParameter);
                },
            }
            i = i + 1;
        }
        assert(f.params@.take(i as int) =~= f.params@);
        let symbol_text = match &f.symbol_attr {
            Some(t) => unparenthesize(t),
            None => f.name.clone(),
        };
        let mut symbol = symbol_text.as_str().as_bytes_vec();
        symbol.push(0u8);
        let mut ptr_name = String::new();
        append_str(&mut ptr_name, "ptr_");
        append_str(&mut ptr_name, f.name.as_str());
        Ok(Descriptor { ptr_name, parameters, fn_ident: f.name.clone(), symbol, ret_type: f.ret.clone() })
    }
}

/// An error in a prefix of the parameters is the error of the whole list.
proof fn lemma_params_error_prefix(ps: Seq<ParamDecl>, n: int)
    requires
        0 <= n <= ps.len(),
        params_error(ps.take(n)) is Some,
    ensures
        params_error(ps) == params_error(ps.take(n)),
    decreases ps.len() - n,
{
    if n < ps.len() {
        assert(ps.take(n + 1).drop_last() =~= ps.take(n));
        lemma_params_error_prefix(ps, n + 1);
    } else {
        assert(ps.take(n) =~= ps);
    }
}

/// An error in a prefix of the functions is the error of the whole block.
proof fn lemma_block_error_prefix(fs: Seq<FnDecl>, n: int)
    requires
        0 <= n <= fs.len(),
        block_error(fs.take(n)) is Some,
    ensures
        block_error(fs) == block_error(fs.take(n)),
    decreases fs.len() - n,
{
    if n < fs.len() {
        assert(fs.take(n + 1).drop_last() =~= fs.take(n));
        lemma_block_error_prefix(fs, n + 1);
    } else {
        assert(fs.take(n) =~= fs);
    }
}

impl DlLinkItem {
    /// Checks a declarative block: every parameter of every function must be
    /// a plain named binding.  On success each function gets its descriptor,
    /// in order; otherwise the error of the first refused parameter is
    /// returned.
    pub fn parse(block: &ForeignBlock) -> (r: Result<DlLinkItem, SpecError>)
        ensures
            match r {
                Ok(item) => block_error(block.functions@) is None && parsed(item, *block),
                Err(e) => block_error(block.functions@) == Some(e),
            },
    {
        let libname = match &block.libname_attr {
            Some(t) => {
                let inner = unparenthesize(t);
                let a = trim_start_char(inner.as_str(), '"');
                Some(trim_end_char(a.as_str(), '"'))
            },
            None => None,
        };
        let mut descriptors: Vec<Descriptor> = Vec::new();
        let mut i: usize = 0;
        while i < block.functions.len()
            invariant
                i <= block.functions@.len(),
                block_error(block.functions@.take(i as int)) is None,
                descriptors@.len() == i,
                forall|j: int| 0 <= j < i ==> describes(#[trigger] descriptors@[j], block.functions@[j]),
            decreases block.functions@.len() - i,
        {
            assert(block.functions@.take(i + 1).drop_last() =~= block.functions@.take(i as int));
            match Descriptor::parse(&block.functions[i]) {
                Ok(d) => descriptors.push(d),
                Err(e) => {
                    proof {
                        lemma_block_error_prefix(block.functions@, i as int + 1);
                    }
                    return Err(e);
                },
            }
            i = i + 1;
        }
        assert(block.functions@.take(i as int) =~= block.functions@);
        Ok(DlLinkItem { libname, descriptors })
    }
}

/// Relies on `proc_macro2::Literal::string` and its `Display`: the text of a
/// string literal whose value is `s`.  How it is escaped depends on whether a
/// procedural macro is running, so only the literal's value is stated.
#[verifier::external_body]
fn string_literal(s: &str) -> (r: String)
    ensures
        string_literal_value(r@) == Some(code_points(s@)),
{
    proc_macro2::Literal::string(s).to_string()
}

/// Relies on `proc_macro2::Literal::byte_string` and its `Display`: the text of
/// a byte-string literal whose value is `b`.  How it is escaped depends on
/// whether a procedural macro is running, so only the literal's value is
/// stated.
#[verifier::external_body]
fn byte_string_literal(b: &Vec<u8>) -> (r: String)
    ensures
        byte_string_literal_value(r@) == Some(b@),
{
    proc_macro2::Literal::byte_string(b.as_slice()).to_string()
}

/// The parts joined, with `sep` between each two.
pub open spec fn join(parts: Seq<Seq<char>>, sep: Seq<char>) -> Seq<char>
    decreases parts.len(),
{
    if parts.len() == 0 {
        Seq::empty()
    } else if parts.len() == 1 {
        parts[0]
    } else {
        join(parts.drop_last(), sep) + sep + parts.last()
    }
}

/// The parts one after another.
pub open spec fn concat(parts: Seq<Seq<char>>) -> Seq<char>
    decreases parts.len(),
{
    if parts.len() == 0 {
        Seq::empty()
    } else {
        concat(parts.drop_last()) + parts.last()
    }
}

/// Which text of a parameter is emitted.
#[derive(Clone, Copy, Debug, PartialEq, Eq, Structural)]
pub enum ParamPiece {
    /// Its type alone, as in a function-pointer type.
    Type,
    /// `name: Type`, as in a function's parameter list.
    Declaration,
    /// Its name alone, as in a call's argument list.
    Name,
}

pub open spec fn piece_text(p: Param, k: ParamPiece) -> Seq<char> {
    match k {
        ParamPiece::Type => p.ty@,
        ParamPiece::Declaration => p.name@ + ": "@ + p.ty@,
        ParamPiece::Name => p.name@,
    }
}

pub open spec fn pieces(ps: Seq<Param>, k: ParamPiece) -> Seq<Seq<char>> {
    ps.map_values(|p: Param| piece_text(p, k))
}

/// The table field of a function: a native-calling-convention function
/// pointer typed exactly as declared.
pub open spec fn fn_ptr_text(d: Descriptor) -> Seq<char> {
    d.ptr_name@ + ": extern \"C\" fn("@ + join(pieces(d.parameters@, ParamPiece::Type), ", "@) + ") "@
        + d.ret_type@ + ", "@
}

/// The entry of a function's symbol in the loader's symbol list.
pub open spec fn loading_text(symbol_literal: Seq<char>) -> Seq<char> {
    symbol_literal + ".to_vec(), "@
}

/// The initialiser of a function's table field from the resolved addresses.
pub open spec fn fn_store_text(d: Descriptor) -> Seq<char> {
    d.ptr_name@ + ": std::mem::transmute::<usize, _>(entries.next()?), "@
}

/// The accessor of a function: its own name and parameters, calling through
/// its table field.
pub open spec fn fn_caller_text(d: Descriptor) -> Seq<char> {
    "pub(super) unsafe fn "@ + d.fn_ident@ + "(&self, "@ + join(pieces(d.parameters@, ParamPiece::Declaration), ", "@)
        + ") "@ + d.ret_type@ + " { (self.0.as_ref()."@ + d.ptr_name@ + ")("@
        + join(pieces(d.parameters@, ParamPiece::Name), ", "@) + ") } "@
}

/// The whole emitted binding named `name`, given the literal of the library
/// to open and the literal of each function's symbol.
pub open spec fn binding_text(
    ds: Seq<Descriptor>,
    name: Seq<char>,
    lib_literal: Seq<char>,
    symbol_literals: Seq<Seq<char>>,
) -> Seq<char> {
    "struct Store"@ + name + " { library: super::DynamicLibrary, "@ + concat(ds.map_values(|d: Descriptor| fn_ptr_text(d)))
        + "} #[derive(Clone)] pub struct "@ + name + "(std::sync::Arc<Store"@ + name + ">); impl "@ + name
        + " { pub fn load() -> Option<Self> { let library = super::DynamicLibrary::load("@ + lib_literal
        + ")?; let table = ::dlcompute::bindgen::load_table(&vec!["@
        + concat(symbol_literals.map_values(|l: Seq<char>| loading_text(l)))
        + "], |symbol: &Vec<u8>| library.get_function(symbol))?; let mut entries = table.into_iter(); unsafe { Some(Self(std::sync::Arc::new(Store"@
        + name + " { "@ + concat(ds.map_values(|d: Descriptor| fn_store_text(d)))
        + "library, }))) } } "@ + concat(ds.map_values(|d: Descriptor| fn_caller_text(d))) + "}"@
}

/// The name of the library that a binding opens: the block's, else the
/// binding's own name.
pub open spec fn library_name(item: DlLinkItem, name: Seq<char>) -> Seq<char> {
    match item.libname {
        Some(n) => n@,
        None => name,
    }
}

/// `r` is the binding named `name` emitted for `item`, with the library to
/// open and each function's symbol written as literals of those values.
pub open spec fn renders_binding(item: DlLinkItem, name: Seq<char>, r: Seq<char>) -> bool {
    exists|lib_literal: Seq<char>, symbol_literals: Seq<Seq<char>>|
        #![trigger binding_text(item.descriptors@, name, lib_literal, symbol_literals)]
        {
            &&& string_literal_value(lib_literal) == Some(code_points(library_name(item, name)))
            &&& symbol_literals.len() == item.descriptors@.len()
            &&& forall|i: int| 0 <= i < symbol_literals.len() ==> byte_string_literal_value(#[trigger] symbol_literals[i])
                == Some(item.descriptors@[i].symbol@)
            &&& r == binding_text(item.descriptors@, name, lib_literal, symbol_literals)
        }
}

/// Appends the chosen text of each parameter, separated by commas.
fn append_params(out: &mut String, ps: &Vec<Param>, k: ParamPiece)
    ensures
        final(out)@ == old(out)@ + join(pieces(ps@, k), ", "@),
{
    let ghost base = out@;
    let ghost parts = pieces(ps@, k);
    let mut i: usize = 0;
    assert(parts.take(0) =~= Seq::<Seq<char>>::empty());
    while i < ps.len()
        invariant
            i <= ps@.len(),
            parts == pieces(ps@, k),
            out@ == base + join(parts.take(i as int), ", "@),
        decreases ps@.len() - i,
    {
        assert(parts.take(i + 1).drop_last() =~= parts.take(i as int));
        if i > 0 {
            append_str(out, ", ");
        }
        let p = &ps[i];
        match k {
            ParamPiece::Type => append_str(out, p.ty.as_str()),
            ParamPiece::Declaration => {
                append_str(out, p.name.as_str());
                append_str(out, ": ");
                append_str(out, p.ty.as_str());
            },
            ParamPiece::Name => append_str(out, p.name.as_str()),
        }
        assert(out@ =~= base + join(parts.take(i + 1), ", "@));
        i = i + 1;
    }
    assert(parts.take(i as int) =~= parts);
}

impl Descriptor {
    /// Appends the function's table field.
    pub fn generate_fn_ptr(&self, out: &mut String)
        ensures
            final(out)@ == old(out)@ + fn_ptr_text(*self),
    {
        let ghost base = out@;
        append_str(out, self.ptr_name.as_str());
        append_str(out, ": extern \"C\" fn(");
        append_params(out, &self.parameters, ParamPiece::Type);
        append_str(out, ") ");
        append_str(out, self.ret_type.as_str());
        append_str(out, ", ");
        assert(out@ =~= base + fn_ptr_text(*self));
    }

    /// Appends the entry of the function's symbol, given its literal.
    pub fn generate_loading(symbol_literal: &str, out: &mut String)
        ensures
            final(out)@ == old(out)@ + loading_text(symbol_literal@),
    {
        let ghost base = out@;
        append_str(out, symbol_literal);
        append_str(out, ".to_vec(), ");
        assert(out@ =~= base + loading_text(symbol_literal@));
    }

    /// Appends the initialiser of the function's table field.
    pub fn generate_fn_store(&self, out: &mut String)
        ensures
            final(out)@ == old(out)@ + fn_store_text(*self),
    {
        let ghost base = out@;
        append_str(out, self.ptr_name.as_str());
        append_str(out, ": std::mem::transmute::<usize, _>(entries.next()?), ");
        assert(out@ =~= base + fn_store_text(*self));
    }

    /// Appends the function's accessor.
    pub fn generate_fn_caller(&self, out: &mut String)
        ensures
            final(out)@ == old(out)@ + fn_caller_text(*self),
    {
        let ghost base = out@;
        append_str(out, "pub(super) unsafe fn ");
        append_str(out, self.fn_ident.as_str());
        append_str(out, "(&self, ");
        append_params(out, &self.parameters, ParamPiece::Declaration);
        append_str(out, ") ");
        append_str(out, self.ret_type.as_str());
        append_str(out, " { (self.0.as_ref().");
        append_str(out, self.ptr_name.as_str());
        append_str(out, ")(");
        append_params(out, &self.parameters, ParamPiece::Name);
        append_str(out, ") } ");
        assert(out@ =~= base + fn_caller_text(*self));
    }
}

/// Appends the chosen part of each descriptor, one after another.
fn append_descriptor_parts(out: &mut String, ds: &Vec<Descriptor>, k: DescriptorPart)
    ensures
        final(out)@ == old(out)@ + concat(ds@.map_values(|d: Descriptor| part_text(d, k))),
{
    let ghost base = out@;
    let ghost parts = ds@.map_values(|d: Descriptor| part_text(d, k));
    let mut i: usize = 0;
    assert(parts.take(0) =~= Seq::<Seq<char>>::empty());
    while i < ds.len()
        invariant
            i <= ds@.len(),
            parts == ds@.map_values(|d: Descriptor| part_text(d, k)),
            out@ == base + concat(parts.take(i as int)),
        decreases ds@.len() - i,
    {
        assert(parts.take(i + 1).drop_last() =~= parts.take(i as int));
        match k {
            DescriptorPart::FnPtr => ds[i].generate_fn_ptr(out),
            DescriptorPart::FnStore => ds[i].generate_fn_store(out),
            DescriptorPart::FnCaller => ds[i].generate_fn_caller(out),
        }
        assert(out@ =~= base + concat(parts.take(i + 1)));
        i = i + 1;
    }
    assert(parts.take(i as int) =~= parts);
}

/// Which per-function part of a binding is emitted.
#[derive(Clone, Copy, Debug, PartialEq, Eq, Structural)]
pub enum DescriptorPart {
    FnPtr,
    FnStore,
    FnCaller,
}

pub open spec fn part_text(d: Descriptor, k: DescriptorPart) -> Seq<char> {
    match k {
        DescriptorPart::FnPtr => fn_ptr_text(d),
        DescriptorPart::FnStore => fn_store_text(d),
        DescriptorPart::FnCaller => fn_caller_text(d),
    }
}

/// Appends the symbol-list entry of each literal.
fn append_loadings(out: &mut String, symbol_literals: &Vec<String>)
    ensures
        final(out)@ == old(out)@ + concat(symbol_literals@.map_values(|l: String| loading_text(l@))),
{
    let ghost base = out@;
    let ghost parts = symbol_literals@.map_values(|l: String| loading_text(l@));
    let mut i: usize = 0;
    assert(parts.take(0) =~= Seq::<Seq<char>>::empty());
    while i < symbol_literals.len()
        invariant
            i <= symbol_literals@.len(),
            parts == symbol_literals@.map_values(|l: String| loading_text(l@)),
            out@ == base + concat(parts.take(i as int)),
        decreases symbol_literals@.len() - i,
    {
        assert(parts.take(i + 1).drop_last() =~= parts.take(i as int));
        Descriptor::generate_loading(symbol_literals[i].as_str(), out);
        assert(out@ =~= base + concat(parts.take(i + 1)));
        i = i + 1;
    }
    assert(parts.take(i as int) =~= parts);
}

pub open spec fn literal_texts(ls: Seq<String>) -> Seq<Seq<char>> {
    ls.map_values(|l: String| l@)
}

impl DlLinkItem {
    /// Emits the binding named `name`, given the literal of the library to
    /// open and the literal of each function's symbol: a private table with
    /// the opened library and one function pointer per function, a public
    /// cloneable shared handle over it, a loader that opens the library and
    /// resolves every symbol or yields nothing, and one accessor per function.
    pub fn generate_with(&self, name: &str, lib_literal: &str, symbol_literals: &Vec<String>) -> (r: String)
        ensures
            r@ == binding_text(self.descriptors@, name@, lib_literal@, literal_texts(symbol_literals@)),
    {
        let mut out = String::new();
        append_str(&mut out, "struct Store");
        append_str(&mut out, name);
        append_str(&mut out, " { library: super::DynamicLibrary, ");
        append_descriptor_parts(&mut out, &self.descriptors, DescriptorPart::FnPtr);
        append_str(&mut out, "} #[derive(Clone)] pub struct ");
        append_str(&mut out, name);
        append_str(&mut out, "(std::sync::Arc<Store");
        append_str(&mut out, name);
        append_str(&mut out, ">); impl ");
        append_str(&mut out, name);
        append_str(&mut out, " { pub fn load() -> Option<Self> { let library = super::DynamicLibrary::load(");
        append_str(&mut out, lib_literal);
        append_str(&mut out, ")?; let table = ::dlcompute::bindgen::load_table(&vec![");
        append_loadings(&mut out, symbol_literals);
        append_str(&mut out, "], |symbol: &Vec<u8>| library.get_function(symbol))?; let mut entries = table.into_iter(); unsafe { Some(Self(std::sync::Arc::new(Store");
        append_str(&mut out, name);
        append_str(&mut out, " { ");
        append_descriptor_parts(&mut out, &self.descriptors, DescriptorPart::FnStore);
        append_str(&mut out, "library, }))) } } ");
        append_descriptor_parts(&mut out, &self.descriptors, DescriptorPart::FnCaller);
        append_str(&mut out, "}");
        proof {
            let ds = self.descriptors@;
            assert(ds.map_values(|d: Descriptor| part_text(d, DescriptorPart::FnPtr)) =~= ds.map_values(|d: Descriptor| fn_ptr_text(d)));
            assert(ds.map_values(|d: Descriptor| part_text(d, DescriptorPart::FnStore)) =~= ds.map_values(|d: Descriptor| fn_store_text(d)));
            assert(ds.map_values(|d: Descriptor| part_text(d, DescriptorPart::FnCaller)) =~= ds.map_values(|d: Descriptor| fn_caller_text(d)));
            assert(symbol_literals@.map_values(|l: String| loading_text(l@))
                =~= literal_texts(symbol_literals@).map_values(|l: Seq<char>| loading_text(l)));
        }
        assert(out@ =~= binding_text(self.descriptors@, name@, lib_literal@, literal_texts(symbol_literals@)));
        out
    }

    /// Emits the binding named `name`: the library opened is the block's, else
    /// `name`; each symbol is written as a NUL-terminated byte string.
    pub fn generate(&self, name: &str) -> (r: String)
        ensures
            renders_binding(*self, name@, r@),
    {
        let lib_literal = match &self.libname {
            Some(n) => string_literal(n.as_str()),
            None => string_literal(name),
        };
        let mut symbol_literals: Vec<String> = Vec::new();
        let mut i: usize = 0;
        while i < self.descriptors.len()
            invariant
                i <= self.descriptors@.len(),
                symbol_literals@.len() == i,
                forall|j: int| 0 <= j < i ==> byte_string_literal_value((#[trigger] symbol_literals@[j])@) == Some(self.descriptors@[j].symbol@),
            decreases self.descriptors@.len() - i,
        {
            symbol_literals.push(byte_string_literal(&self.descriptors[i].symbol));
            i = i + 1;
        }
        let r = self.generate_with(name, lib_literal.as_str(), &symbol_literals);
        assert(literal_texts(symbol_literals@).len() == self.descriptors@.len());
        assert(forall|j: int| 0 <= j < self.descriptors@.len()
            ==> byte_string_literal_value(#[trigger] literal_texts(symbol_literals@)[j]) == Some(self.descriptors@[j].symbol@));
        r
    }
}

/// `r` is an outcome of resolving `symbols` one by one with `resolve`: a
/// table of one address per symbol, each an answer of `resolve` for it, or
/// nothing, when `resolve` found no address for one of them.
pub open spec fn resolved_table<F: Fn(&Vec<u8>) -> Option<usize>>(
    symbols: Seq<Vec<u8>>,
    resolve: F,
    r: Option<Vec<usize>>,
) -> bool {
    match r {
        Some(t) => t@.len() == symbols.len() && forall|i: int|
            0 <= i < symbols.len() ==> resolve.ensures((&symbols[i],), Some(#[trigger] t@[i])),
        None => exists|i: int| 0 <= i < symbols.len() && resolve.ensures((&symbols[i],), None::<usize>),
    }
}

/// Resolves every symbol in order and stops at the first that `resolve`
/// cannot find: a table is produced only when all of them resolved.
pub fn load_table<F: Fn(&Vec<u8>) -> Option<usize>>(symbols: &Vec<Vec<u8>>, resolve: F) -> (r: Option<Vec<usize>>)
    requires
        forall|s: &Vec<u8>| resolve.requires((s,)),
    ensures
        resolved_table(symbols@, resolve, r),
        (forall|i: int, o: Option<usize>|
            0 <= i < symbols@.len() && #[trigger] resolve.ensures((&symbols@[i],), o) ==> o is Some) ==> r is Some,
{
    let mut table: Vec<usize> = Vec::new();
    let mut i: usize = 0;
    while i < symbols.len()
        invariant
            i <= symbols@.len(),
            table@.len() == i,
            forall|s: &Vec<u8>| resolve.requires((s,)),
            forall|j: int| 0 <= j < i ==> resolve.ensures((&symbols@[j],), Some(#[trigger] table@[j])),
        decreases symbols@.len() - i,
    {
        match resolve(&symbols[i]) {
            Some(address) => table.push(address),
            None => {
                return None;
            },
        }
        i = i + 1;
    }
    Some(table)
}

/// Loading is all or nothing: when one of the symbols cannot be resolved,
/// whatever is answered for the others, no table is produced.
pub proof fn lemma_load_all_or_nothing<F: Fn(&Vec<u8>) -> Option<usize>>(
    symbols: Seq<Vec<u8>>,
    resolve: F,
    missing: int,
    r: Option<Vec<usize>>,
)
    requires
        0 <= missing < symbols.len(),
        forall|o: Option<usize>| resolve.ensures((&symbols[missing],), o) ==> o is None,
        resolved_table(symbols, resolve, r),
    ensures
        r is None,
{
    if r is Some {
        let t = r->Some_0;
        assert(resolve.ensures((&symbols[missing],), Some(t@[missing])));
    }
}

} // verus!
