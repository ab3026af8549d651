use tagged_dispatch::behaviors::derived_behaviors;
use tagged_dispatch::behaviors::parse_flag;
use tagged_dispatch::behaviors::Behaviors;
use tagged_dispatch::behaviors::Flag;
use tagged_dispatch::dispatch::dispatched_methods;
use tagged_dispatch::dispatch::forwarded_arguments;
use tagged_dispatch::dispatch::ItemDecl;
use tagged_dispatch::dispatch::ParamDecl;
use tagged_dispatch::names::builder_name;
use tagged_dispatch::names::constructor_name;
use tagged_dispatch::names::dispatch_macro_for;
use tagged_dispatch::names::dispatch_macro_name;
use tagged_dispatch::names::kind_enum_name;
use tagged_dispatch::names::type_enum_name;
use tagged_dispatch::registry::concrete_type;
use tagged_dispatch::registry::mode_for;
use tagged_dispatch::registry::Mode;
use tagged_dispatch::registry::Registry;
use tagged_dispatch::registry::RegistryError;
use tagged_dispatch::registry::VariantDecl;
use tagged_dispatch::registry::VariantShape;

fn unit(name: &str) -> VariantDecl {
    VariantDecl { name: name.to_string(), shape: VariantShape::Unit }
}

fn single(name: &str, concrete: &str) -> VariantDecl {
    VariantDecl { name: name.to_string(), shape: VariantShape::Single(concrete.to_string()) }
}

fn other(name: &str) -> VariantDecl {
    VariantDecl { name: name.to_string(), shape: VariantShape::Other }
}

#[test]
fn tags_follow_declaration_order() {
    let decls = vec![unit("Circle"), single("Rect", "Rectangle"), unit("Triangle")];
    let registry = Registry::register(&decls).expect("three plain variants");
    assert_eq!(registry.len(), 3);

    let circle = registry.variant(0).expect("tag 0");
    assert_eq!(circle.name, "Circle");
    assert_eq!(circle.concrete, "Circle");
    assert_eq!(circle.tag, 0);

    let rect = registry.variant(1).expect("tag 1");
    assert_eq!(rect.name, "Rect");
    assert_eq!(rect.concrete, "Rectangle");
    assert_eq!(rect.tag, 1);

    let triangle = registry.variant(2).expect("tag 2");
    assert_eq!(triangle.name, "Triangle");
    assert_eq!(triangle.tag, 2);

    assert!(registry.variant(3).is_none());
    assert!(registry.variant(255).is_none());
}

#[test]
fn an_empty_set_has_no_variant() {
    let registry = Registry::register(&Vec::new()).expect("nothing to turn down");
    assert_eq!(registry.len(), 0);
    assert!(registry.variant(0).is_none());
}

#[test]
fn a_set_of_128_variants_is_the_largest() {
    let full: Vec<VariantDecl> = (0..128).map(|i| unit(&format!("V{}", i))).collect();
    let registry = Registry::register(&full).expect("128 variants have a tag each");
    assert_eq!(registry.len(), 128);
    let last = registry.variant(127).expect("tag 127");
    assert_eq!(last.name, "V127");
    assert_eq!(last.tag, 127);
    assert!(registry.variant(128).is_none());

    let over: Vec<VariantDecl> = (0..129).map(|i| unit(&format!("V{}", i))).collect();
    assert_eq!(
        Registry::register(&over).err(),
        Some(RegistryError::TooManyVariants { count: 129 })
    );
}

#[test]
fn too_many_variants_outweigh_a_bad_shape() {
    let mut over: Vec<VariantDecl> = (0..200).map(|i| unit(&format!("V{}", i))).collect();
    over[3] = other("Odd");
    assert_eq!(
        Registry::register(&over).err(),
        Some(RegistryError::TooManyVariants { count: 200 })
    );
}

#[test]
fn the_first_unsupported_variant_is_named() {
    let decls = vec![unit("Circle"), other("Pair"), unit("Square"), other("Triple")];
    assert_eq!(
        Registry::register(&decls).err(),
        Some(RegistryError::UnsupportedShape { index: 1 })
    );
}

#[test]
fn a_variant_holds_its_own_or_the_named_type() {
    assert_eq!(concrete_type(&unit("Circle")), Some("Circle".to_string()));
    assert_eq!(concrete_type(&single("Rect", "shapes::Rectangle")), Some("shapes::Rectangle".to_string()));
    assert_eq!(concrete_type(&other("Pair")), None);
}

#[test]
fn a_lifetime_makes_an_arena_set() {
    assert_eq!(mode_for(0), Mode::Owned);
    assert_eq!(mode_for(1), Mode::Arena);
    assert_eq!(mode_for(2), Mode::Arena);
}

#[test]
fn constructors_are_named_in_snake_case() {
    assert_eq!(constructor_name("Circle"), "circle");
    assert_eq!(constructor_name("TypeA"), "type_a");
    assert_eq!(constructor_name("HTTPRequest"), "http_request");
    assert_eq!(constructor_name("already_snake"), "already_snake");
}

#[test]
fn dispatch_macros_are_named_after_their_capability() {
    assert_eq!(dispatch_macro_name("Draw"), "__impl_draw_dispatch");
    assert_eq!(dispatch_macro_name("MixedDispatch"), "__impl_mixed_dispatch_dispatch");
    assert_eq!(dispatch_macro_for("draw"), "__impl_draw_dispatch");
    assert_eq!(dispatch_macro_for(""), "__impl__dispatch");
}

#[test]
fn types_are_named_after_their_set() {
    assert_eq!(type_enum_name("Shape"), "ShapeType");
    assert_eq!(kind_enum_name("Shape"), "ShapeKind");
    assert_eq!(builder_name("Shape"), "ShapeArenaBuilder");
    assert_eq!(builder_name("ShapeArena"), "ShapeArenaArenaBuilder");
}

#[test]
fn excluded_methods_are_not_forwarded() {
    let items = vec![
        ItemDecl::Method { excluded: false },
        ItemDecl::Method { excluded: true },
        ItemDecl::Other,
        ItemDecl::Method { excluded: false },
        ItemDecl::Method { excluded: true },
    ];
    assert_eq!(dispatched_methods(&items), vec![0, 3]);
    assert_eq!(dispatched_methods(&Vec::new()), Vec::<usize>::new());
    assert_eq!(
        dispatched_methods(&vec![ItemDecl::Method { excluded: true }, ItemDecl::Other]),
        Vec::<usize>::new()
    );
}

#[test]
fn named_arguments_after_the_receiver_are_passed_on() {
    let params = vec![ParamDecl::Receiver, ParamDecl::Named, ParamDecl::Pattern, ParamDecl::Named];
    assert_eq!(forwarded_arguments(&params), vec![1, 3]);
    assert_eq!(forwarded_arguments(&vec![ParamDecl::Receiver]), Vec::<usize>::new());
    assert_eq!(forwarded_arguments(&Vec::new()), Vec::<usize>::new());
    // The first parameter is taken for the receiver, whatever it is.
    assert_eq!(forwarded_arguments(&vec![ParamDecl::Named, ParamDecl::Named]), vec![1]);
}

#[test]
fn flags_are_told_from_capabilities() {
    assert_eq!(parse_flag("no_debug"), Some(Flag::NoDebug));
    assert_eq!(parse_flag("no_cmp"), Some(Flag::NoCmp));
    assert_eq!(parse_flag("no_ord"), Some(Flag::NoOrd));
    assert_eq!(parse_flag("no_traits"), Some(Flag::NoTraits));
    assert_eq!(parse_flag("Draw"), None);
    assert_eq!(parse_flag("no_debug "), None);
    assert_eq!(parse_flag(""), None);
}

#[test]
fn flags_take_behaviours_out() {
    let all = Behaviors { debug: true, equality: true, ordering: true };
    assert_eq!(derived_behaviors(&Vec::new()), all);
    assert_eq!(
        derived_behaviors(&vec![Flag::NoDebug]),
        Behaviors { debug: false, equality: true, ordering: true }
    );
    assert_eq!(
        derived_behaviors(&vec![Flag::NoCmp]),
        Behaviors { debug: true, equality: false, ordering: false }
    );
    assert_eq!(
        derived_behaviors(&vec![Flag::NoOrd]),
        Behaviors { debug: true, equality: true, ordering: false }
    );
    assert_eq!(
        derived_behaviors(&vec![Flag::NoTraits]),
        Behaviors { debug: false, equality: false, ordering: false }
    );
    assert_eq!(
        derived_behaviors(&vec![Flag::NoOrd, Flag::NoDebug, Flag::NoOrd]),
        Behaviors { debug: false, equality: true, ordering: false }
    );
}
