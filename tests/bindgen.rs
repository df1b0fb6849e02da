use std::cell::RefCell;

use dlcompute::bindgen::{load_table, Descriptor, DlLinkItem, FnDecl, ForeignBlock, ParamDecl, SpecError};
use dlcompute::handle::handle_impl_text;
use dlcompute::dynamic_library::{library_file_name, HostFamily};
use dlcompute::text::{trim_end_char, trim_start_char};

fn named(n: &str, t: &str) -> ParamDecl {
    ParamDecl::Named(n.to_string(), t.to_string())
}

fn decl(name: &str, symbol: Option<&str>, params: Vec<ParamDecl>, ret: &str) -> FnDecl {
    FnDecl {
        name: name.to_string(),
        symbol_attr: symbol.map(|s| s.to_string()),
        params,
        ret: ret.to_string(),
    }
}

fn testlib_block() -> ForeignBlock {
    ForeignBlock {
        libname_attr: Some("(\"testlib\")".to_string()),
        functions: vec![
            decl("add", Some("(testlib_add)"), vec![named("a", "i32"), named("b", "i32")], "-> i32"),
            decl("neg", Some("(testlib_neg)"), vec![named("a", "i32")], "-> i32"),
        ],
    }
}

// The literals are spelled as proc-macro2 writes them outside a procedural
// macro; inside one the compiler's own spelling may differ (`\x00` for NUL).
const TESTLIB_TEXT: &str = "struct StoreTestLib { library: super::DynamicLibrary, ptr_add: extern \"C\" fn(i32, i32) -> i32, ptr_neg: extern \"C\" fn(i32) -> i32, } #[derive(Clone)] pub struct TestLib(std::sync::Arc<StoreTestLib>); impl TestLib { pub fn load() -> Option<Self> { let library = super::DynamicLibrary::load(\"testlib\")?; let table = ::dlcompute::bindgen::load_table(&vec![b\"testlib_add\\0\".to_vec(), b\"testlib_neg\\0\".to_vec(), ], |symbol: &Vec<u8>| library.get_function(symbol))?; let mut entries = table.into_iter(); unsafe { Some(Self(std::sync::Arc::new(StoreTestLib { ptr_add: std::mem::transmute::<usize, _>(entries.next()?), ptr_neg: std::mem::transmute::<usize, _>(entries.next()?), library, }))) } } pub(super) unsafe fn add(&self, a: i32, b: i32) -> i32 { (self.0.as_ref().ptr_add)(a, b) } pub(super) unsafe fn neg(&self, a: i32) -> i32 { (self.0.as_ref().ptr_neg)(a) } }";

#[test]
fn parse_reads_annotations() {
    let item = DlLinkItem::parse(&testlib_block()).unwrap();
    assert_eq!(item.libname.as_deref(), Some("testlib"));
    assert_eq!(item.descriptors.len(), 2);
    let add = &item.descriptors[0];
    assert_eq!(add.ptr_name, "ptr_add");
    assert_eq!(add.fn_ident, "add");
    assert_eq!(add.symbol, b"testlib_add\0".to_vec());
    assert_eq!(add.ret_type, "-> i32");
    assert_eq!(add.parameters.len(), 2);
    assert_eq!(add.parameters[1].name, "b");
    assert_eq!(add.parameters[1].ty, "i32");
}

#[test]
fn symbol_defaults_to_the_name() {
    let block = ForeignBlock {
        libname_attr: None,
        functions: vec![decl("init", None, vec![named("flags", "u32")], "-> Status")],
    };
    let item = DlLinkItem::parse(&block).unwrap();
    assert_eq!(item.libname, None);
    assert_eq!(item.descriptors[0].symbol, b"init\0".to_vec());
}

#[test]
fn refused_parameters() {
    let d = decl("f", None, vec![named("a", "i32"), ParamDecl::Pattern], "");
    assert_eq!(Descriptor::parse(&d).err(), Some(SpecError::ExpectIdentifier));
    let d = decl("g", None, vec![ParamDecl::Receiver], "");
    assert_eq!(Descriptor::parse(&d).err(), Some(SpecError::InvalidParameter));
    let block = ForeignBlock {
        libname_attr: None,
        functions: vec![
            decl("ok", None, vec![named("a", "i32")], ""),
            decl("g", None, vec![named("a", "i32"), ParamDecl::Receiver, ParamDecl::Pattern], ""),
            decl("f", None, vec![ParamDecl::Pattern], ""),
        ],
    };
    assert_eq!(DlLinkItem::parse(&block).err(), Some(SpecError::InvalidParameter));
    assert_eq!(SpecError::ExpectIdentifier.message(), "Expect Identifier");
    assert_eq!(SpecError::InvalidParameter.message(), "Invalid parameter");
}

#[test]
fn generate_with_given_literals() {
    let item = DlLinkItem::parse(&testlib_block()).unwrap();
    let literals = vec!["b\"testlib_add\\0\"".to_string(), "b\"testlib_neg\\0\"".to_string()];
    assert_eq!(item.generate_with("TestLib", "\"testlib\"", &literals), TESTLIB_TEXT);
}

#[test]
fn generate_renders_literals() {
    let item = DlLinkItem::parse(&testlib_block()).unwrap();
    assert_eq!(item.generate("TestLib"), TESTLIB_TEXT);
    let unnamed = DlLinkItem::parse(&ForeignBlock { libname_attr: None, functions: vec![] }).unwrap();
    let text = unnamed.generate("Cuda");
    assert!(text.contains("super::DynamicLibrary::load(\"Cuda\")?"));
    assert!(text.contains("&vec![]"));
}

#[test]
fn generated_pieces() {
    let item = DlLinkItem::parse(&testlib_block()).unwrap();
    let mut out = String::new();
    item.descriptors[1].generate_fn_ptr(&mut out);
    assert_eq!(out, "ptr_neg: extern \"C\" fn(i32) -> i32, ");
    let mut out = String::new();
    item.descriptors[0].generate_fn_caller(&mut out);
    assert_eq!(out, "pub(super) unsafe fn add(&self, a: i32, b: i32) -> i32 { (self.0.as_ref().ptr_add)(a, b) } ");
    let mut out = String::new();
    item.descriptors[0].generate_fn_store(&mut out);
    assert_eq!(out, "ptr_add: std::mem::transmute::<usize, _>(entries.next()?), ");
    let mut out = String::from("x");
    Descriptor::generate_loading("b\"s\\0\"", &mut out);
    assert_eq!(out, "xb\"s\\0\".to_vec(), ");
}

fn testlib_add(a: i32, b: i32) -> i32 {
    a + b
}

fn testlib_neg(a: i32) -> i32 {
    -a
}

#[test]
fn testlib_end_to_end() {
    let item = DlLinkItem::parse(&testlib_block()).unwrap();
    let symbols: Vec<Vec<u8>> = item.descriptors.iter().map(|d| d.symbol.clone()).collect();
    let add_address = testlib_add as fn(i32, i32) -> i32 as usize;
    let neg_address = testlib_neg as fn(i32) -> i32 as usize;
    let table = load_table(&symbols, |s: &Vec<u8>| match s.as_slice() {
        b"testlib_add\0" => Some(add_address),
        b"testlib_neg\0" => Some(neg_address),
        _ => None,
    })
    .unwrap();
    assert_eq!(table, vec![add_address, neg_address]);
    let call2 = |address: usize, a: i32, b: i32| if address == add_address { testlib_add(a, b) } else { panic!() };
    let call1 = |address: usize, a: i32| if address == neg_address { testlib_neg(a) } else { panic!() };
    assert_eq!(call2(table[0], 2, 3), 5);
    assert_eq!(call1(table[1], 4), -4);
}

#[test]
fn missing_symbol_yields_no_table() {
    let symbols = vec![b"a\0".to_vec(), b"b\0".to_vec(), b"c\0".to_vec()];
    let asked = RefCell::new(Vec::new());
    let r = load_table(&symbols, |s: &Vec<u8>| {
        asked.borrow_mut().push(s.clone());
        if s == &b"b\0".to_vec() { None } else { Some(s[0] as usize) }
    });
    assert_eq!(r, None);
    assert_eq!(asked.into_inner(), vec![b"a\0".to_vec(), b"b\0".to_vec()]);
    assert_eq!(load_table(&symbols, |s: &Vec<u8>| Some(s[0] as usize)), Some(vec![97, 98, 99]));
    assert_eq!(load_table(&Vec::new(), |_s: &Vec<u8>| None), Some(vec![]));
}

#[test]
fn library_file_names() {
    assert_eq!(library_file_name("cuda", HostFamily::Linux), "libcuda.so\0");
    assert_eq!(library_file_name("OpenCL", HostFamily::MacOs), "libOpenCL.dylib\0");
    assert_eq!(library_file_name("OpenCL", HostFamily::Windows), "OpenCL.dll\0");
}

#[test]
fn trimming() {
    assert_eq!(trim_start_char("((x)", '('), "x)");
    assert_eq!(trim_end_char("\"lib\"\"", '"'), "\"lib");
    assert_eq!(trim_start_char("", '('), "");
    assert_eq!(trim_end_char("))", ')'), "");
}

#[test]
fn handle_impl_emission() {
    assert_eq!(
        handle_impl_text("PlatformId"),
        "impl dlcompute::handle::Handle for PlatformId { fn null() -> Self { Self(0) } fn is_null(&self) -> bool { self.0 == 0 } }"
    );
}
