use handlebars_inflector::{
    camel_case, class_case, deconstantize, demodulize, deordinalize, kebab_case, lower_case,
    ordinalize, pascal_case, pluralize, screaming_snake_case, sentence_case, singularize,
    snake_case, table_case, title_case, to_foreign_key, train_case, transform, upper_case, Flag,
    FlagSet, HandlebarsInflector,
};

fn single(f: Flag) -> FlagSet {
    FlagSet::none().with(f)
}

#[test]
fn it_works() {
    assert_eq!(
        transform("this is a test", &single(Flag::CamelCase)),
        "thisIsATest",
        "Failed to test to_camel_case"
    );
    assert_eq!(
        transform("product_images", &single(Flag::PascalCase)),
        "ProductImages",
        "Failed to test to_pascal_case"
    );
    assert_eq!(
        transform("ProductImages", &single(Flag::SnakeCase)),
        "product_images",
        "Failed to test to_snake_case"
    );
    assert_eq!(
        transform("ProductImages", &single(Flag::ScreamingSnakeCase)),
        "PRODUCT_IMAGES",
        "Failed to test to_screaming_snake_case"
    );
    assert_eq!(
        transform("product_images", &single(Flag::KebabCase)),
        "product-images",
        "Failed to test to_kebab_case"
    );
    assert_eq!(
        transform("product_images", &single(Flag::SentenceCase)),
        "Product images",
        "Failed to test to_sentence_case"
    );
    assert_eq!(
        transform("product_images", &single(Flag::TitleCase)),
        "Product Images",
        "Failed to test to_title_case"
    );
    assert_eq!(
        transform("July 1", &single(Flag::Ordinalize)),
        "July 1st",
        "Failed to test ordinalize"
    );
    assert_eq!(
        transform("July 1st", &single(Flag::Deordinalize)),
        "July 1",
        "Failed to test deordinalize"
    );
    assert_eq!(
        transform("ProductImage", &single(Flag::ToForeignKey)),
        "product_image_id",
        "Failed to test to_foreign_key"
    );
    assert_eq!(
        transform("Foo::Bar", &single(Flag::Demodulize)),
        "Bar",
        "Failed to test demodulize"
    );
    assert_eq!(
        transform("Foo::Bar", &single(Flag::Deconstantize)),
        "Foo",
        "Failed to test deconstantize"
    );
    assert_eq!(
        transform("product_images", &single(Flag::ClassCase)),
        "ProductImage",
        "Failed to test to_class_case"
    );
    assert_eq!(
        transform("ProductImage", &single(Flag::TableCase)),
        "product_images",
        "Failed to test to_table_case"
    );
    assert_eq!(
        transform("product image", &single(Flag::Pluralize)),
        "product images",
        "Failed to test to_plural"
    );
    assert_eq!(
        transform("product_images", &single(Flag::Singularize)),
        "product_image",
        "Failed to test to_singular"
    );
    assert_eq!(
        transform("product image", &single(Flag::UpperCase)),
        "PRODUCT IMAGE",
        "Failed to test to_upper_case"
    );
    assert_eq!(
        transform("PRODUCT IMAGE", &single(Flag::LowerCase)),
        "product image",
        "Failed to test to_lower_case"
    );
}

#[test]
fn catalog_examples() {
    assert_eq!(camel_case("product_images"), "productImages");
    assert_eq!(pascal_case("product_images"), "ProductImages");
    assert_eq!(snake_case("ProductImages"), "product_images");
    assert_eq!(screaming_snake_case("ProductImages"), "PRODUCT_IMAGES");
    assert_eq!(kebab_case("product_images"), "product-images");
    assert_eq!(train_case("product_images"), "Product-Images");
    assert_eq!(sentence_case("product_images"), "Product images");
    assert_eq!(title_case("product_images"), "Product Images");
    assert_eq!(ordinalize("July 1"), "July 1st");
    assert_eq!(deordinalize("July 1st"), "July 1");
    assert_eq!(to_foreign_key("Product image"), "product_image_id");
    assert_eq!(demodulize("std::io"), "Io");
    assert_eq!(deconstantize("std::io"), "Std");
    assert_eq!(class_case("product_images"), "ProductImage");
    assert_eq!(table_case("ProductImage"), "product_images");
    assert_eq!(pluralize("product image"), "product images");
    assert_eq!(singularize("product_images"), "product_image");
    assert_eq!(upper_case("product images"), "PRODUCT IMAGES");
    assert_eq!(lower_case("PRODUCT IMAGES"), "product images");
}

#[test]
fn idempotence_examples() {
    let s = "This is a Test String";
    assert_eq!(lower_case(&lower_case(s)), lower_case(s));
    assert_eq!(upper_case(&upper_case(s)), upper_case(s));
    assert_eq!(snake_case(&snake_case(s)), snake_case(s));
    assert_eq!(pascal_case(&pascal_case(s)), pascal_case(s));
}

#[test]
fn ordinal_round_trip() {
    assert_eq!(deordinalize(&ordinalize("July 1")), "July 1");
    assert_eq!(deordinalize(&ordinalize("July 11")), "July 11");
    assert_eq!(deordinalize(&ordinalize("July 12")), "July 12");
    assert_eq!(deordinalize(&ordinalize("22")), "22");
    assert_eq!(deordinalize(&ordinalize("3")), "3");
    assert_eq!(deordinalize(&ordinalize("0.1")), "0.1");
}

#[test]
fn ordinal_edges() {
    assert_eq!(ordinalize("July 2"), "July 2nd");
    assert_eq!(ordinalize("July 3"), "July 3rd");
    assert_eq!(ordinalize("July 4"), "July 4th");
    assert_eq!(ordinalize("July 11"), "July 11th");
    assert_eq!(ordinalize("0.1"), "0.1");
    assert_eq!(ordinalize("July"), "July");
    assert_eq!(ordinalize(""), "");
    // the suffix is stripped only where it follows a digit
    assert_eq!(deordinalize("best"), "best");
    assert_eq!(deordinalize("July 2nd"), "July 2");
    assert_eq!(deordinalize(""), "");
}

#[test]
fn request_order_is_irrelevant() {
    let a = FlagSet::from_requests(&vec![Flag::SnakeCase, Flag::UpperCase]);
    let b = FlagSet::from_requests(&vec![Flag::UpperCase, Flag::SnakeCase]);
    assert_eq!(a, b);
    assert_eq!(
        transform("ProductImages", &a),
        transform("ProductImages", &b)
    );
    // snake precedes upper in the canonical table, whatever the request said
    assert_eq!(transform("ProductImages", &b), "PRODUCT_IMAGES");
    // duplicates add nothing
    let c = FlagSet::from_requests(&vec![Flag::SnakeCase, Flag::SnakeCase]);
    assert_eq!(c, single(Flag::SnakeCase));
}

#[test]
fn nesting_demodulize_then_class_case() {
    let last = demodulize("Bars::Foos");
    assert_eq!(last, "Foo");
    assert_eq!(class_case(&last), "Foo");
}

#[test]
fn empty_input_stays_empty() {
    assert_eq!(transform("", &single(Flag::CamelCase)), "");
    assert_eq!(transform("", &single(Flag::PascalCase)), "");
    assert_eq!(transform("", &single(Flag::SnakeCase)), "");
    assert_eq!(transform("", &single(Flag::ScreamingSnakeCase)), "");
    assert_eq!(transform("", &single(Flag::KebabCase)), "");
    assert_eq!(transform("", &single(Flag::TrainCase)), "");
    assert_eq!(transform("", &single(Flag::SentenceCase)), "");
    assert_eq!(transform("", &single(Flag::TitleCase)), "");
    assert_eq!(transform("", &single(Flag::Ordinalize)), "");
    assert_eq!(transform("", &single(Flag::Deordinalize)), "");
    assert_eq!(transform("", &single(Flag::Demodulize)), "");
    assert_eq!(transform("", &single(Flag::Deconstantize)), "");
    assert_eq!(transform("", &single(Flag::ClassCase)), "");
    assert_eq!(transform("", &single(Flag::Singularize)), "");
    assert_eq!(transform("", &single(Flag::UpperCase)), "");
    assert_eq!(transform("", &single(Flag::LowerCase)), "");
    assert_eq!(transform("", &FlagSet::none()), "");
    // the three transformations that append to the empty word
    assert_eq!(transform("", &single(Flag::ToForeignKey)), "_id");
    assert_eq!(transform("", &single(Flag::TableCase)), "s");
    assert_eq!(transform("", &single(Flag::Pluralize)), "s");
}

#[test]
fn boundaryless_word_is_kept_by_lowering_transforms() {
    assert_eq!(camel_case("test"), "test");
    assert_eq!(snake_case("test"), "test");
    assert_eq!(kebab_case("test"), "test");
    assert_eq!(lower_case("test"), "test");
}

#[test]
fn scenario_foreign_key_and_namespaces() {
    assert_eq!(table_case("ProductImage"), "product_images");
    assert_eq!(to_foreign_key("Product image"), "product_image_id");
    assert_eq!(demodulize("Foo::Bar"), "Bar");
    assert_eq!(deconstantize("Foo::Bar"), "Foo");
    // a foreign key is not doubled
    assert_eq!(to_foreign_key("product_image_id"), "product_image_id");
    // namespaced foreign keys use the last segment
    assert_eq!(to_foreign_key("Test::Foo::Bar"), "bar_id");
    // a string without a separator demodulizes to itself
    assert_eq!(demodulize("Bar"), "Bar");
    assert_eq!(deconstantize("Bar"), "");
}

#[test]
fn irregular_words() {
    assert_eq!(pluralize("ox"), "oxen");
    assert_eq!(pluralize("goose"), "geese");
    assert_eq!(singularize("oxen"), "ox");
    assert_eq!(singularize("geese"), "goose");
    assert_eq!(pluralize("category"), "categories");
    assert_eq!(singularize("boxes"), "box");
}

#[test]
fn helper_type_transforms() {
    let h = HandlebarsInflector;
    assert_eq!(h.transform("product_images", &single(Flag::ClassCase)), "ProductImage");
}

#[test]
fn composed_flags_follow_canonical_order() {
    // class case (step 14) runs before table case (step 15): the composition
    // round-trips "product_images" through "ProductImage" back to itself
    let fs = single(Flag::ClassCase).with(Flag::TableCase);
    assert_eq!(transform("product_images", &fs), "product_images");
    // camel (step 1) then snake (step 3) folds back toward snake form
    let fs2 = FlagSet::from_requests(&vec![Flag::SnakeCase, Flag::CamelCase]);
    assert_eq!(transform("product_images", &fs2), "product_images");
}
