use daisy_rsx::variant::{same_text, validate, Variant, VariantError};
use daisy_rsx::{
    AlertColor, BadgeColor, BadgeSize, BadgeStyle, ButtonScheme, ButtonShape, ButtonSize,
    ButtonStyle, CheckBoxScheme, CheckBoxSize, Direction, FileInputColor, FileInputSize,
    FileInputStyle, InputSize, LoadingColor, LoadingSize, LoadingType, RangeColor, RangeSize,
    RelativeTimeFormat, SelectSize, TextAreaSize, ToolTipColor,
};

fn fragments<V: Variant>() -> Vec<&'static str> {
    V::all().iter().map(|v| v.resolve()).collect()
}

/// Every member resolves to a fragment of its own, the fragment is tidy, and
/// validation of the fragment gives the member back.
fn holds_the_laws<V: Variant + PartialEq + std::fmt::Debug + Default>() {
    let all = V::all();
    assert!(!all.is_empty());
    for (i, v) in all.iter().enumerate() {
        let fragment = v.resolve();
        assert!(!fragment.contains(' '));
        assert_eq!(v.resolve(), fragment);
        for w in &all[i + 1..] {
            assert_ne!(v, w);
            assert_ne!(w.resolve(), fragment);
        }
        assert_eq!(validate::<V>(fragment), Ok(*v));
    }
    let default = V::default();
    let same: Vec<&V> = all.iter().filter(|v| v.resolve() == default.resolve()).collect();
    assert_eq!(same, vec![&default]);
    assert_eq!(all.iter().filter(|v| **v == default).count(), 1);
}

#[test]
fn every_enumeration_holds_the_laws() {
    holds_the_laws::<AlertColor>();
    holds_the_laws::<BadgeColor>();
    holds_the_laws::<BadgeSize>();
    holds_the_laws::<BadgeStyle>();
    holds_the_laws::<ButtonScheme>();
    holds_the_laws::<ButtonShape>();
    holds_the_laws::<ButtonSize>();
    holds_the_laws::<ButtonStyle>();
    holds_the_laws::<CheckBoxScheme>();
    holds_the_laws::<CheckBoxSize>();
    holds_the_laws::<Direction>();
    holds_the_laws::<FileInputColor>();
    holds_the_laws::<FileInputSize>();
    holds_the_laws::<FileInputStyle>();
    holds_the_laws::<InputSize>();
    holds_the_laws::<LoadingColor>();
    holds_the_laws::<LoadingSize>();
    holds_the_laws::<LoadingType>();
    holds_the_laws::<RangeColor>();
    holds_the_laws::<RangeSize>();
    holds_the_laws::<RelativeTimeFormat>();
    holds_the_laws::<SelectSize>();
    holds_the_laws::<TextAreaSize>();
    holds_the_laws::<ToolTipColor>();
}

#[test]
fn defaults_are_the_designated_members() {
    assert_eq!(AlertColor::default(), AlertColor::Default);
    assert_eq!(BadgeColor::default(), BadgeColor::Default);
    assert_eq!(BadgeSize::default(), BadgeSize::Md);
    assert_eq!(BadgeStyle::default(), BadgeStyle::Plain);
    assert_eq!(ButtonScheme::default(), ButtonScheme::Default);
    assert_eq!(ButtonShape::default(), ButtonShape::Default);
    assert_eq!(ButtonSize::default(), ButtonSize::Default);
    assert_eq!(ButtonStyle::default(), ButtonStyle::Default);
    assert_eq!(CheckBoxScheme::default(), CheckBoxScheme::Default);
    assert_eq!(CheckBoxSize::default(), CheckBoxSize::Default);
    assert_eq!(Direction::default(), Direction::Unset);
    assert_eq!(FileInputColor::default(), FileInputColor::Default);
    assert_eq!(FileInputSize::default(), FileInputSize::Default);
    assert_eq!(FileInputStyle::default(), FileInputStyle::Default);
    assert_eq!(InputSize::default(), InputSize::Default);
    assert_eq!(LoadingColor::default(), LoadingColor::Default);
    assert_eq!(LoadingSize::default(), LoadingSize::Medium);
    assert_eq!(LoadingType::default(), LoadingType::Spinner);
    assert_eq!(RangeColor::default(), RangeColor::Default);
    assert_eq!(RangeSize::default(), RangeSize::Default);
    assert_eq!(RelativeTimeFormat::default(), RelativeTimeFormat::Relative);
    assert_eq!(SelectSize::default(), SelectSize::Default);
    assert_eq!(TextAreaSize::default(), TextAreaSize::Default);
    assert_eq!(ToolTipColor::default(), ToolTipColor::Default);
}

#[test]
fn alert_fragments() {
    assert_eq!(AlertColor::Default.resolve(), "");
    assert_eq!(AlertColor::Warn.resolve(), "alert-warning");
    assert_eq!(AlertColor::Info.resolve(), "alert-info");
    assert_eq!(AlertColor::Error.resolve(), "alert-error");
    assert_eq!(AlertColor::Success.resolve(), "alert-success");
    assert_eq!(fragments::<AlertColor>().len(), 5);
}

#[test]
fn badge_fragments() {
    assert_eq!(
        fragments::<BadgeStyle>(),
        vec!["", "badge-outline", "badge-dash", "badge-soft", "badge-ghost"]
    );
    assert_eq!(
        fragments::<BadgeColor>(),
        vec![
            "",
            "badge-neutral",
            "badge-primary",
            "badge-secondary",
            "badge-accent",
            "badge-info",
            "badge-success",
            "badge-warning",
            "badge-error",
        ]
    );
    assert_eq!(BadgeSize::Md.resolve(), "");
    assert_eq!(BadgeSize::Xs.resolve(), "badge-xs");
    assert_eq!(BadgeSize::Sm.resolve(), "badge-sm");
    assert_eq!(BadgeSize::Lg.resolve(), "badge-lg");
    assert_eq!(BadgeSize::Xl.resolve(), "badge-xl");
}

#[test]
fn button_fragments() {
    assert_eq!(
        fragments::<ButtonScheme>(),
        vec![
            "",
            "btn-neutral",
            "btn-primary",
            "btn-secondary",
            "btn-accent",
            "btn-info",
            "btn-success",
            "btn-warning",
            "btn-error",
        ]
    );
    assert_eq!(ButtonSize::Default.resolve(), "");
    assert_eq!(ButtonSize::ExtraSmall.resolve(), "btn-xs");
    assert_eq!(ButtonSize::Small.resolve(), "btn-sm");
    assert_eq!(ButtonSize::Medium.resolve(), "btn-md");
    assert_eq!(ButtonSize::Large.resolve(), "btn-lg");
    assert_eq!(fragments::<ButtonShape>(), vec!["", "btn-circle", "btn-square"]);
    assert_eq!(
        fragments::<ButtonStyle>(),
        vec!["", "btn-outline", "btn-dash", "btn-soft", "btn-ghost", "btn-link"]
    );
}

#[test]
fn check_box_fragments() {
    assert_eq!(
        fragments::<CheckBoxScheme>(),
        vec![
            "",
            "checkbox-primary",
            "checkbox-secondary",
            "checkbox-accent",
            "checkbox-info",
            "checkbox-success",
            "checkbox-warning",
            "checkbox-error",
        ]
    );
    assert_eq!(
        fragments::<CheckBoxSize>(),
        vec!["", "checkbox-xs", "checkbox-sm", "checkbox-md", "checkbox-lg"]
    );
}

#[test]
fn direction_fragments() {
    assert_eq!(
        fragments::<Direction>(),
        vec!["", "dropdown-top", "dropdown-bottom", "dropdown-left", "dropdown-right"]
    );
}

#[test]
fn file_input_fragments() {
    assert_eq!(fragments::<FileInputStyle>(), vec!["", "file-input-ghost"]);
    assert_eq!(
        fragments::<FileInputColor>(),
        vec![
            "",
            "file-input-neutral",
            "file-input-primary",
            "file-input-secondary",
            "file-input-accent",
            "file-input-info",
            "file-input-success",
            "file-input-warning",
            "file-input-error",
        ]
    );
    assert_eq!(
        fragments::<FileInputSize>(),
        vec!["", "file-input-xs", "file-input-sm", "file-input-md", "file-input-lg"]
    );
}

#[test]
fn input_select_and_text_area_fragments() {
    assert_eq!(InputSize::Default.resolve(), "");
    assert_eq!(InputSize::ExtraSmall.resolve(), "input-xs");
    assert_eq!(InputSize::Small.resolve(), "input-sm");
    assert_eq!(InputSize::Medium.resolve(), "input-md");
    assert_eq!(InputSize::Large.resolve(), "input-lg");
    assert_eq!(
        fragments::<SelectSize>(),
        vec!["", "select-xs", "select-sm", "select-md", "select-lg"]
    );
    assert_eq!(
        fragments::<TextAreaSize>(),
        vec!["", "textarea-xs", "textarea-sm", "textarea-md", "textarea-lg"]
    );
}

#[test]
fn loading_fragments() {
    assert_eq!(
        fragments::<LoadingType>(),
        vec![
            "loading-spinner",
            "loading-dots",
            "loading-ring",
            "loading-ball",
            "loading-bars",
            "loading-infinity",
        ]
    );
    assert_eq!(
        fragments::<LoadingSize>(),
        vec!["loading-xs", "loading-sm", "loading-md", "loading-lg", "loading-xl"]
    );
    assert_eq!(
        fragments::<LoadingColor>(),
        vec![
            "",
            "text-primary",
            "text-secondary",
            "text-accent",
            "text-neutral",
            "text-info",
            "text-success",
            "text-warning",
            "text-error",
        ]
    );
}

#[test]
fn range_fragments() {
    assert_eq!(
        fragments::<RangeColor>(),
        vec![
            "",
            "range-primary",
            "range-secondary",
            "range-accent",
            "range-info",
            "range-success",
            "range-warning",
            "range-error",
        ]
    );
    assert_eq!(fragments::<RangeSize>(), vec!["", "range-xs", "range-sm", "range-md", "range-lg"]);
}

#[test]
fn relative_time_fragments() {
    assert_eq!(
        fragments::<RelativeTimeFormat>(),
        vec!["datetime", "relative", "duration", "auto", "micro", "elapsed"]
    );
}

#[test]
fn tooltip_fragments() {
    assert_eq!(ToolTipColor::Default.resolve(), "");
    assert_eq!(ToolTipColor::Warn.resolve(), "tooltip-warning");
    assert_eq!(ToolTipColor::Info.resolve(), "tooltip-info");
    assert_eq!(ToolTipColor::Error.resolve(), "tooltip-error");
    assert_eq!(ToolTipColor::Success.resolve(), "tooltip-success");
}

#[test]
fn validate_refuses_a_colour_outside_the_enumeration() {
    assert_eq!(validate::<ButtonScheme>("btn-purple"), Err(VariantError::UnknownFragment));
    assert_eq!(validate::<BadgeColor>("badge-purple"), Err(VariantError::UnknownFragment));
    assert_eq!(validate::<BadgeColor>("btn-primary"), Err(VariantError::UnknownFragment));
    assert_eq!(validate::<LoadingColor>("primary"), Err(VariantError::UnknownFragment));
    assert_eq!(validate::<AlertColor>("alert-info "), Err(VariantError::UnknownFragment));
    assert_eq!(validate::<AlertColor>("ALERT-INFO"), Err(VariantError::UnknownFragment));
}

#[test]
fn validate_refuses_the_empty_text_where_no_member_has_it() {
    assert_eq!(validate::<LoadingType>(""), Err(VariantError::UnknownFragment));
    assert_eq!(validate::<LoadingSize>(""), Err(VariantError::UnknownFragment));
    assert_eq!(validate::<RelativeTimeFormat>(""), Err(VariantError::UnknownFragment));
}

#[test]
fn validate_finds_the_member_of_a_fragment() {
    assert_eq!(validate::<ButtonScheme>("btn-primary"), Ok(ButtonScheme::Primary));
    assert_eq!(validate::<ButtonScheme>(""), Ok(ButtonScheme::Default));
    assert_eq!(validate::<ButtonStyle>("btn-ghost"), Ok(ButtonStyle::Ghosted));
    assert_eq!(validate::<BadgeSize>(""), Ok(BadgeSize::Md));
    assert_eq!(validate::<Direction>("dropdown-left"), Ok(Direction::Left));
    assert_eq!(validate::<RelativeTimeFormat>("micro"), Ok(RelativeTimeFormat::Micro));
}

#[test]
fn same_text_compares_letter_for_letter() {
    assert!(same_text("btn", "btn"));
    assert!(same_text("", ""));
    assert!(!same_text("btn", "btn "));
    assert!(!same_text("btn", "Btn"));
    assert!(!same_text("", "a"));
}
