use daisy_rsx::attr::{AttrValue, Attribute};
use daisy_rsx::node::{Element, Node, Tag};
use daisy_rsx::{
    Alert, AlertColor, AlertProps, Badge, BadgeColor, BadgeProps, BadgeSize, BadgeStyle,
    Breadcrumb, BreadcrumbItem, BreadcrumbProps, Button, ButtonProps, ButtonScheme, ButtonShape,
    ButtonSize, ButtonStyle, Card, CardBody, CardBodyProps, CardHeader, CardHeaderProps,
    CardProps, CheckBox, CheckBoxProps, CheckBoxScheme, CheckBoxSize, Direction, Drawer,
    DrawerBody, DrawerBodyProps, DrawerFooter, DrawerFooterProps, DrawerProps, DropDown,
    DropDownLink, DropDownLinkProps, DropDownProps, Fieldset, FieldsetProps, FileInput,
    FileInputColor, FileInputProps, FileInputSize, FileInputStyle, Input, InputProps, InputSize,
    Loading, LoadingColor, LoadingProps, LoadingSize, LoadingType, Modal, ModalAction,
    ModalActionProps, ModalBody, ModalBodyProps, ModalProps, OptionProps, Range, RangeColor,
    RangeProps, RangeSize, RelativeTime, RelativeTimeFormat, RelativeTimeProps, Select,
    SelectOption, SelectProps, SelectSize, TabContainer, TabContainerProps, TabPanel,
    TabPanelProps, TextArea, TextAreaProps, TextAreaSize, ToolTip, ToolTipColor, ToolTipProps,
};

type Tree = Node<&'static str>;

fn el(tag: Tag, attributes: Vec<Attribute>, children: Vec<Tree>) -> Tree {
    Node::Element(Element { tag, attributes, children })
}

fn text(text: &str) -> Tree {
    Node::Text(String::from(text))
}

fn at(name: &str, value: &str) -> Attribute {
    Attribute::text(name, value)
}

fn root(node: &Tree) -> &Element<&'static str> {
    match node {
        Node::Element(e) => e,
        _ => panic!("no element"),
    }
}

fn class_of(node: &Tree) -> String {
    let found = root(node).attributes.iter().find(|a| a.name == "class").expect("no class");
    match &found.value {
        AttrValue::Text(class) => class.clone(),
        _ => panic!("class is no text"),
    }
}

fn count_tag(node: &Tree, tag: Tag) -> usize {
    match node {
        Node::Element(e) => {
            let own = if e.tag == tag { 1 } else { 0 };
            own + e.children.iter().map(|c| count_tag(c, tag)).sum::<usize>()
        }
        _ => 0,
    }
}

fn count_class(node: &Tree, class: &str) -> usize {
    match node {
        Node::Element(e) => {
            let own = e
                .attributes
                .iter()
                .filter(|a| a.name == "class" && a.value == AttrValue::Text(String::from(class)))
                .count();
            own + e.children.iter().map(|c| count_class(c, class)).sum::<usize>()
        }
        _ => 0,
    }
}

#[test]
fn button_primary_large_outline() {
    let mut props = ButtonProps::new("Save");
    props.button_scheme = ButtonScheme::Primary;
    props.button_size = ButtonSize::Large;
    props.button_style = ButtonStyle::Outline;
    props.button_shape = ButtonShape::Default;
    let out = Button(props);
    assert_eq!(class_of(&out), "btn btn-primary btn-lg btn-outline");
    assert_eq!(
        out,
        el(
            Tag::Button,
            vec![at("class", "btn btn-primary btn-lg btn-outline")],
            vec![Node::Content("Save")]
        )
    );
}

#[test]
fn button_names_scheme_size_style_and_shape_in_that_order() {
    let mut props = ButtonProps::new("x");
    props.button_scheme = ButtonScheme::Error;
    props.button_size = ButtonSize::ExtraSmall;
    props.button_style = ButtonStyle::Ghosted;
    props.button_shape = ButtonShape::Circle;
    assert_eq!(class_of(&Button(props)), "btn btn-error btn-xs btn-ghost btn-circle");
}

#[test]
fn button_without_explicit_props_has_the_base_class_only() {
    let out: Tree = Button(ButtonProps::new("x"));
    assert_eq!(class_of(&out), "btn");
}

#[test]
fn button_merges_passthrough_attributes() {
    let mut props = ButtonProps::new("Go");
    props.button_scheme = ButtonScheme::Primary;
    props.attributes = vec![
        at("type", "submit"),
        Attribute::handler("onclick", 1),
        at("class", "w-full"),
        Attribute::flag("disabled", true),
    ];
    assert_eq!(
        Button(props),
        el(
            Tag::Button,
            vec![
                at("class", "btn btn-primary w-full"),
                at("type", "submit"),
                Attribute::handler("onclick", 1),
                Attribute::flag("disabled", true),
            ],
            vec![Node::Content("Go")]
        )
    );
}

#[test]
fn badge_without_explicit_props_has_the_base_class_only() {
    let props = BadgeProps::new("new");
    assert_eq!(props.badge_style, BadgeStyle::Plain);
    assert_eq!(props.badge_color, BadgeColor::Default);
    assert_eq!(props.badge_size, BadgeSize::Md);
    assert!(props.attributes.is_empty());
    let out = Badge(props);
    assert_eq!(class_of(&out), "badge");
    assert_eq!(out, el(Tag::Span, vec![at("class", "badge")], vec![Node::Content("new")]));
}

#[test]
fn badge_names_style_colour_and_size() {
    let mut props = BadgeProps::new("3");
    props.badge_style = BadgeStyle::Outline;
    props.badge_color = BadgeColor::Accent;
    props.badge_size = BadgeSize::Lg;
    assert_eq!(class_of(&Badge(props)), "badge badge-outline badge-accent badge-lg");
}

#[test]
fn rendering_the_same_props_twice_gives_the_same_tree() {
    let make = || {
        let mut props = ButtonProps::new("Save");
        props.button_scheme = ButtonScheme::Accent;
        props.attributes = vec![at("class", "mine"), at("id", "save")];
        props
    };
    assert_eq!(make(), make());
    assert_eq!(Button(make()), Button(make()));
    let drop = || {
        let mut props = DropDownProps::new("menu", "Open");
        props.carat = true;
        props.direction = Direction::Top;
        props
    };
    assert_eq!(DropDown(drop()), DropDown(drop()));
    let first: Tree = Loading(LoadingProps::new());
    let second: Tree = Loading(LoadingProps::new());
    assert_eq!(first, second);
}

#[test]
fn alert_tree() {
    let mut props = AlertProps::new("careful");
    props.alert_color = AlertColor::Warn;
    props.attributes = vec![at("role", "alert")];
    assert_eq!(
        Alert(props),
        el(
            Tag::Div,
            vec![at("class", "alert alert-warning"), at("role", "alert")],
            vec![Node::Content("careful")]
        )
    );
    assert_eq!(class_of(&Alert(AlertProps::new("plain"))), "alert");
}

#[test]
fn card_trees() {
    assert_eq!(
        Card(CardProps::new("c")),
        el(Tag::Div, vec![at("class", "card")], vec![Node::Content("c")])
    );
    assert_eq!(
        CardBody(CardBodyProps::new("b")),
        el(Tag::Div, vec![at("class", "card-body")], vec![Node::Content("b")])
    );
    let mut header = CardHeaderProps::new("Title", "h");
    header.attributes = vec![at("class", "px-4")];
    assert_eq!(
        CardHeader(header),
        el(
            Tag::Div,
            vec![at("class", "card-header flex items-center px-4")],
            vec![
                el(Tag::H3, vec![at("class", "card-title overflow-hidden")], vec![text("Title")]),
                Node::Content("h"),
            ]
        )
    );
}

#[test]
fn check_box_renders_the_control_and_the_label_side_by_side() {
    let mut props = CheckBoxProps::new("Accept");
    props.checkbox_scheme = CheckBoxScheme::Success;
    props.checkbox_size = CheckBoxSize::Small;
    props.attributes = vec![at("name", "accept"), Attribute::flag("checked", true)];
    let out: Tree = CheckBox(props);
    assert_eq!(
        out,
        el(
            Tag::Label,
            vec![at("class", "flex items-center gap-2 cursor-pointer")],
            vec![
                el(
                    Tag::Input,
                    vec![
                        at("type", "checkbox"),
                        at("class", "checkbox checkbox-success checkbox-sm"),
                        at("name", "accept"),
                        Attribute::flag("checked", true),
                    ],
                    vec![]
                ),
                el(Tag::Span, vec![], vec![text("Accept")]),
            ]
        )
    );
}

#[test]
fn fieldset_tree() {
    assert_eq!(
        Fieldset(FieldsetProps::new("Account", "fields")),
        el(
            Tag::Fieldset,
            vec![at("class", "fieldset")],
            vec![
                el(Tag::Legend, vec![at("class", "fieldset-legend")], vec![text("Account")]),
                Node::Content("fields"),
            ]
        )
    );
}

#[test]
fn file_input_tree() {
    let mut props = FileInputProps::new("Avatar");
    props.file_input_style = FileInputStyle::Ghosted;
    props.file_input_color = FileInputColor::Primary;
    props.file_input_size = FileInputSize::Large;
    props.attributes = vec![at("accept", "image/*")];
    let out: Tree = FileInput(props);
    assert_eq!(
        out,
        el(
            Tag::Label,
            vec![at("class", "flex flex-col gap-1")],
            vec![
                el(Tag::Span, vec![], vec![text("Avatar")]),
                el(
                    Tag::Input,
                    vec![
                        at("type", "file"),
                        at("class", "file-input file-input-ghost file-input-primary file-input-lg"),
                        at("accept", "image/*"),
                    ],
                    vec![]
                ),
            ]
        )
    );
}

#[test]
fn input_tree() {
    let mut props = InputProps::new("Email");
    props.input_size = InputSize::Small;
    props.attributes = vec![at("name", "email"), at("type", "email")];
    let out: Tree = Input(props);
    assert_eq!(
        out,
        el(
            Tag::Label,
            vec![at("class", "flex flex-col gap-1")],
            vec![
                el(Tag::Span, vec![], vec![text("Email")]),
                el(
                    Tag::Input,
                    vec![
                        at("class", "input input-bordered input-sm"),
                        at("name", "email"),
                        at("type", "email"),
                    ],
                    vec![]
                ),
            ]
        )
    );
    let plain: Tree = Input(InputProps::new("Name"));
    assert_eq!(class_of(&root(&plain).children[1]), "input input-bordered");
}

#[test]
fn loading_tree() {
    let plain: Tree = Loading(LoadingProps::new());
    assert_eq!(
        plain,
        el(Tag::Span, vec![at("class", "loading loading-spinner loading-md")], vec![])
    );
    let mut props = LoadingProps::new();
    props.loading_type = LoadingType::Dots;
    props.loading_size = LoadingSize::ExtraLarge;
    props.loading_color = LoadingColor::Secondary;
    let out: Tree = Loading(props);
    assert_eq!(class_of(&out), "loading loading-dots loading-xl text-secondary");
}

#[test]
fn range_tree() {
    let mut props = RangeProps::new("Volume");
    props.range_color = RangeColor::Info;
    props.range_size = RangeSize::Medium;
    props.attributes = vec![at("min", "0"), at("max", "11"), at("type", "range")];
    let out: Tree = Range(props);
    assert_eq!(
        out,
        el(
            Tag::Label,
            vec![at("class", "flex flex-col gap-1")],
            vec![
                el(Tag::Span, vec![], vec![text("Volume")]),
                el(
                    Tag::Input,
                    vec![
                        at("type", "range"),
                        at("class", "range range-info range-md"),
                        at("min", "0"),
                        at("max", "11"),
                    ],
                    vec![]
                ),
            ]
        )
    );
}

#[test]
fn select_trees() {
    let mut props = SelectProps::new("options", "Country");
    props.select_size = SelectSize::Large;
    assert_eq!(
        Select(props),
        el(
            Tag::Label,
            vec![at("class", "flex flex-col gap-1")],
            vec![
                el(Tag::Span, vec![], vec![text("Country")]),
                el(
                    Tag::Select,
                    vec![at("class", "select select-bordered select-lg")],
                    vec![Node::Content("options")]
                ),
            ]
        )
    );
    let mut option = OptionProps::new("France");
    option.attributes = vec![at("value", "fr"), at("class", "bold")];
    assert_eq!(
        SelectOption(option),
        el(Tag::Option, vec![at("value", "fr"), at("class", "bold")], vec![Node::Content("France")])
    );
}

#[test]
fn text_area_tree() {
    let mut props = TextAreaProps::new("Notes");
    props.textarea_size = TextAreaSize::ExtraSmall;
    props.attributes = vec![at("rows", "4")];
    let out: Tree = TextArea(props);
    assert_eq!(
        out,
        el(
            Tag::Label,
            vec![at("class", "flex flex-col gap-1")],
            vec![
                el(Tag::Span, vec![], vec![text("Notes")]),
                el(
                    Tag::Textarea,
                    vec![at("class", "textarea textarea-bordered textarea-xs"), at("rows", "4")],
                    vec![]
                ),
            ]
        )
    );
}

#[test]
fn tooltip_tree() {
    let mut props = ToolTipProps::new("Copy", "icon");
    props.tooltip_color = ToolTipColor::Info;
    props.attributes = vec![at("data-tip", "Copied"), at("id", "tip")];
    assert_eq!(
        ToolTip(props),
        el(
            Tag::Div,
            vec![at("class", "tooltip tooltip-info"), at("data-tip", "Copied"), at("id", "tip")],
            vec![Node::Content("icon")]
        )
    );
    assert_eq!(
        ToolTip(ToolTipProps::new("Copy", "icon")),
        el(
            Tag::Div,
            vec![at("class", "tooltip"), at("data-tip", "Copy")],
            vec![Node::Content("icon")]
        )
    );
}

#[test]
fn tab_trees() {
    assert_eq!(
        TabContainer(TabContainerProps::new("tabs")),
        el(
            Tag::Div,
            vec![at("role", "tablist"), at("class", "tabs tabs-border")],
            vec![Node::Content("tabs")]
        )
    );
    let mut props = TabPanelProps::new("settings", "General", "panel");
    props.checked = true;
    props.attributes = vec![at("id", "general")];
    assert_eq!(
        TabPanel(props),
        vec![
            el(
                Tag::Input,
                vec![
                    Attribute::flag("checked", true),
                    at("type", "radio"),
                    at("class", "tab"),
                    at("aria-label", "General"),
                    at("name", "settings"),
                    at("id", "general"),
                ],
                vec![]
            ),
            el(
                Tag::Div,
                vec![at("role", "tabpanel"), at("class", "tab-content")],
                vec![Node::Content("panel")]
            ),
        ]
    );
    let unchecked = TabPanel(TabPanelProps::new("settings", "Other", "panel"));
    assert_eq!(unchecked.len(), 2);
    assert_eq!(root(&unchecked[0]).attributes[0], Attribute::flag("checked", false));
}

fn dialog(id: &str, extra: Vec<Attribute>) -> Tree {
    let mut attributes = vec![at("class", "modal"), at("id", id), at("popover", "auto")];
    attributes.extend(extra);
    el(Tag::Dialog, attributes, vec![Node::Content("body")])
}

#[test]
fn modal_stands_alone_without_a_submit_action() {
    let mut props = ModalProps::new("confirm", "body");
    props.attributes = vec![at("data-x", "1")];
    assert_eq!(Modal(props), dialog("confirm", vec![at("data-x", "1")]));
}

#[test]
fn modal_is_wrapped_in_a_form_with_a_submit_action() {
    let mut props = ModalProps::new("confirm", "body");
    props.submit_action = Some(String::from("/delete"));
    assert_eq!(
        Modal(props),
        el(
            Tag::Form,
            vec![at("action", "/delete"), at("method", "post")],
            vec![dialog("confirm", vec![])]
        )
    );
}

#[test]
fn modal_body_and_action_trees() {
    assert_eq!(
        ModalBody(ModalBodyProps::new("b")),
        el(Tag::Div, vec![at("class", "modal-box")], vec![Node::Content("b")])
    );
    assert_eq!(
        ModalAction(ModalActionProps::new("a")),
        el(Tag::Div, vec![at("class", "modal-action")], vec![Node::Content("a")])
    );
}

fn frame(id: &str, label: &str, extra: Vec<Attribute>) -> Tree {
    el(
        Tag::Div,
        extra,
        vec![el(
            Tag::Div,
            vec![at("class", "side-drawer flex flex-col"), at("id", id)],
            vec![
                el(Tag::Div, vec![at("class", "drawer__overlay"), at("tabindex", "-1")], vec![]),
                el(
                    Tag::Div,
                    vec![at("class", "drawer__panel")],
                    vec![
                        el(
                            Tag::Header,
                            vec![at("class", "drawer__header")],
                            vec![
                                el(Tag::H4, vec![at("class", "drawer__title")], vec![text(label)]),
                                el(
                                    Tag::A,
                                    vec![at("href", "#"), at("class", "drawer__close")],
                                    vec![text("X")],
                                ),
                            ],
                        ),
                        Node::Content("content"),
                    ],
                ),
            ],
        )],
    )
}

#[test]
fn drawer_stands_alone_without_a_submit_action() {
    let mut props = DrawerProps::new("edit", "Edit user", "content");
    props.attributes = vec![at("class", "wide"), at("class", "tall")];
    assert_eq!(Drawer(props), frame("edit", "Edit user", vec![at("class", "wide tall")]));
}

#[test]
fn drawer_is_wrapped_in_a_form_with_a_submit_action() {
    let mut props = DrawerProps::new("edit", "Edit user", "content");
    props.submit_action = Some(String::from("/users"));
    assert_eq!(
        Drawer(props),
        el(
            Tag::Form,
            vec![at("action", "/users"), at("method", "post")],
            vec![frame("edit", "Edit user", vec![])]
        )
    );
}

#[test]
fn drawer_body_and_footer_trees() {
    assert_eq!(
        DrawerBody(DrawerBodyProps::new("b")),
        el(Tag::Div, vec![at("class", "drawer__body")], vec![Node::Content("b")])
    );
    assert_eq!(
        DrawerFooter(DrawerFooterProps::new("f")),
        el(Tag::Div, vec![at("class", "drawer__footer")], vec![Node::Content("f")])
    );
}

fn trigger_of(node: &Tree) -> &Element<&'static str> {
    root(&root(node).children[0])
}

fn span() -> Tree {
    el(Tag::Span, vec![at("class", "truncate")], vec![text("Open")])
}

#[test]
fn drop_down_with_the_caret_alone_shows_one_indicator_and_no_icon() {
    let mut props = DropDownProps::new("menu", "Open");
    props.carat = true;
    let out = DropDown(props);
    assert_eq!(count_class(&out, "dropdown-caret"), 1);
    assert_eq!(count_tag(&out, Tag::Img), 0);
    assert_eq!(
        trigger_of(&out).children,
        vec![span(), el(Tag::Div, vec![at("class", "dropdown-caret")], vec![])]
    );
}

#[test]
fn drop_down_tree() {
    let mut props = DropDownProps::new("menu", "Open");
    props.carat = true;
    props.direction = Direction::Bottom;
    props.attributes = vec![at("id", "dd")];
    assert_eq!(
        DropDown(props),
        el(
            Tag::Div,
            vec![at("class", "dropdown dropdown-bottom"), at("id", "dd")],
            vec![
                el(
                    Tag::Label,
                    vec![
                        at("tabindex", "0"),
                        at(
                            "class",
                            "btn btn-default btn-sm m-1 w-full flex flex-nowrap justify-between"
                        ),
                        at("aria-haspopup", "true"),
                    ],
                    vec![span(), el(Tag::Div, vec![at("class", "dropdown-caret")], vec![])]
                ),
                el(
                    Tag::Ul,
                    vec![
                        at("tabindex", "0"),
                        at(
                            "class",
                            "dropdown-content z-[1] menu p-2 shadow bg-base-100 rounded-box w-52 dropdown-bottom"
                        ),
                    ],
                    vec![Node::Content("menu")]
                ),
            ]
        )
    );
}

#[test]
fn drop_down_shows_one_adornment_at_most() {
    let icon = |class: &str, width: &str, src: &str| {
        el(Tag::Img, vec![at("src", src), at("class", class), at("width", width)], vec![])
    };
    for carat in [false, true] {
        for prefix in [None, Some("/pre.svg")] {
            for suffix in [None, Some("/suf.svg")] {
                let mut props = DropDownProps::new("menu", "Open");
                props.carat = carat;
                props.prefix_image_src = prefix.map(String::from);
                props.suffix_image_src = suffix.map(String::from);
                let out = DropDown(props);
                let held = &trigger_of(&out).children;
                let expected = match (prefix, suffix, carat) {
                    (Some(src), _, _) => vec![icon("mr-2", "16", src), span()],
                    (None, Some(src), _) => vec![span(), icon("ml-2", "12", src)],
                    (None, None, true) => {
                        vec![span(), el(Tag::Div, vec![at("class", "dropdown-caret")], vec![])]
                    }
                    (None, None, false) => vec![span()],
                };
                assert_eq!(held, &expected);
                assert!(count_tag(&out, Tag::Img) + count_class(&out, "dropdown-caret") <= 1);
                assert_eq!(class_of(&out), "dropdown");
            }
        }
    }
}

#[test]
fn drop_down_link_tree() {
    let mut props = DropDownLinkProps::new("Profile");
    props.attributes = vec![at("href", "/me")];
    assert_eq!(
        DropDownLink(props),
        el(
            Tag::Li,
            vec![],
            vec![el(
                Tag::A,
                vec![at("class", "dropdown-item"), at("href", "/me")],
                vec![Node::Content("Profile")]
            )]
        )
    );
}

#[test]
fn breadcrumb_tree() {
    let items = vec![
        BreadcrumbItem { text: String::from("Home"), href: Some(String::from("/")) },
        BreadcrumbItem { text: String::from("Docs"), href: Some(String::from("/docs")) },
        BreadcrumbItem { text: String::from("Here"), href: None },
    ];
    let mut props = BreadcrumbProps::new(items.clone());
    props.attributes = vec![at("aria-label", "trail")];
    let out: Tree = Breadcrumb(props);
    assert_eq!(
        out,
        el(
            Tag::Div,
            vec![at("class", "breadcrumbs text-sm"), at("aria-label", "trail")],
            vec![el(
                Tag::Ul,
                vec![],
                vec![
                    el(Tag::Li, vec![], vec![el(Tag::A, vec![at("href", "/")], vec![text("Home")])]),
                    el(
                        Tag::Li,
                        vec![],
                        vec![el(Tag::A, vec![at("href", "/docs")], vec![text("Docs")])]
                    ),
                    el(Tag::Li, vec![], vec![text("Here")]),
                ]
            )]
        )
    );
    assert_eq!(items[2].clone(), items[2]);
}

#[test]
fn breadcrumb_without_items_has_an_empty_list() {
    let out: Tree = Breadcrumb(BreadcrumbProps::new(vec![]));
    assert_eq!(
        out,
        el(Tag::Div, vec![at("class", "breadcrumbs text-sm")], vec![el(Tag::Ul, vec![], vec![])])
    );
}

#[test]
fn relative_time_tree() {
    let plain: Tree = RelativeTime(RelativeTimeProps::new("2024-01-01T00:00:00Z"));
    assert_eq!(
        plain,
        el(
            Tag::RelativeTime,
            vec![at("datetime", "2024-01-01T00:00:00Z"), at("format", "relative")],
            vec![]
        )
    );
    let mut props = RelativeTimeProps::new("2024-01-01T00:00:00Z");
    props.format = Some(RelativeTimeFormat::Micro);
    let out: Tree = RelativeTime(props);
    assert_eq!(root(&out).attributes[1], at("format", "micro"));
}

#[test]
fn tags_are_spelled_as_markup_spells_them() {
    let all = [
        (Tag::A, "a"),
        (Tag::Button, "button"),
        (Tag::Dialog, "dialog"),
        (Tag::Div, "div"),
        (Tag::Fieldset, "fieldset"),
        (Tag::Form, "form"),
        (Tag::H3, "h3"),
        (Tag::H4, "h4"),
        (Tag::Header, "header"),
        (Tag::Img, "img"),
        (Tag::Input, "input"),
        (Tag::Label, "label"),
        (Tag::Legend, "legend"),
        (Tag::Li, "li"),
        (Tag::Option, "option"),
        (Tag::RelativeTime, "relative-time"),
        (Tag::Select, "select"),
        (Tag::Span, "span"),
        (Tag::Textarea, "textarea"),
        (Tag::Ul, "ul"),
    ];
    for (tag, name) in all {
        assert_eq!(tag.name(), name);
    }
}

#[test]
fn element_builders_add_in_order() {
    let built: Tree = Element::new(Tag::Div)
        .attr("class", "box")
        .flag("hidden", false)
        .pass(&vec![at("class", "wide"), at("id", "b")])
        .text("hello")
        .child(Node::content("slot"))
        .extend(vec![text("a"), text("b")])
        .into_node();
    assert_eq!(
        built,
        el(
            Tag::Div,
            vec![at("class", "box wide"), Attribute::flag("hidden", false), at("id", "b")],
            vec![text("hello"), Node::Content("slot"), text("a"), text("b")]
        )
    );
}
