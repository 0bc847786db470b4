//! Typed components for a utility-class design system: each component maps
//! its variants to class names, merges the attributes that the caller passes
//! through, and renders a tree of elements.

#![allow(non_snake_case)]

pub mod alert;
pub mod attr;
pub mod badge;
pub mod breadcrumb;
pub mod button;
pub mod card;
pub mod check_box;
pub mod class;
pub mod drawer;
pub mod drop_down;
pub mod fieldset;
pub mod file_input;
pub mod input;
pub mod loading;
pub mod modal;
pub mod node;
pub mod range;
pub mod relative_time;
pub mod select;
pub mod tab_container;
pub mod text_area;
pub mod tooltip;
pub mod variant;

pub use crate::alert::{Alert, AlertColor, AlertProps};
pub use crate::attr::{merge, AttrValue, Attribute};
pub use crate::badge::{Badge, BadgeColor, BadgeProps, BadgeSize, BadgeStyle};
pub use crate::breadcrumb::{Breadcrumb, BreadcrumbItem, BreadcrumbProps};
pub use crate::button::{Button, ButtonProps, ButtonScheme, ButtonShape, ButtonSize, ButtonStyle};
pub use crate::card::{Card, CardBody, CardBodyProps, CardHeader, CardHeaderProps, CardProps};
pub use crate::check_box::{CheckBox, CheckBoxProps, CheckBoxScheme, CheckBoxSize};
pub use crate::class::compose;
pub use crate::drawer::{
    Drawer,
    DrawerBody,
    DrawerBodyProps,
    DrawerFooter,
    DrawerFooterProps,
    DrawerProps,
};
pub use crate::drop_down::{Direction, DropDown, DropDownLink, DropDownLinkProps, DropDownProps};
pub use crate::fieldset::{Fieldset, FieldsetProps};
pub use crate::file_input::{
    FileInput,
    FileInputColor,
    FileInputProps,
    FileInputSize,
    FileInputStyle,
};
pub use crate::input::{Input, InputProps, InputSize};
pub use crate::loading::{Loading, LoadingColor, LoadingProps, LoadingSize, LoadingType};
pub use crate::modal::{Modal, ModalAction, ModalActionProps, ModalBody, ModalBodyProps, ModalProps};
pub use crate::node::{Element, Node, Tag};
pub use crate::range::{Range, RangeColor, RangeProps, RangeSize};
pub use crate::relative_time::{RelativeTime, RelativeTimeFormat, RelativeTimeProps};
pub use crate::select::{OptionProps, Select, SelectOption, SelectProps, SelectSize};
pub use crate::tab_container::{TabContainer, TabContainerProps, TabPanel, TabPanelProps};
pub use crate::text_area::{TextArea, TextAreaProps, TextAreaSize};
pub use crate::tooltip::{ToolTip, ToolTipColor, ToolTipProps};
pub use crate::variant::{validate, Variant, VariantError};
