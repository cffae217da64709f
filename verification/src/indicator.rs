//! The indicator controller's decisions: how the status-area control is
//! rendered and how gestures are wired to it.
//!
//! The control itself belongs to the host shell; the library only decides.
//! With no command configured, the control gets a static quit menu and no
//! dynamic binding work happens at all. With at least one command, the
//! gesture handlers are bound: the secondary gesture by overriding the
//! control's low-level event entry, the primary gesture through the
//! control's single action slot — which is claimed only when a primary
//! command actually exists. A binding installation that fails degrades to
//! the menu, never to a half-wired control.

use vstd::prelude::*;

use crate::config::{ConfigModel, TrayConfig};
use crate::registry::{CommandRegistry, Gesture, RegistryModel};

verus! {

/// What the installer is asked to do with the control.
#[derive(Clone, Copy, PartialEq, Eq, Structural, Debug)]
pub enum WiringPlan {
    /// No command configured: attach the static quit menu; no dynamic
    /// binding work is performed.
    Menu,
    /// At least one command configured: synthesize the behavior type and
    /// bind both gesture handlers. The control's one action slot is
    /// claimed for the primary handler only when `set_primary_action`
    /// holds, i.e. when a primary command exists.
    Handlers { set_primary_action: bool },
}

/// How the indicator ended up wired once startup is over.
#[derive(Clone, Copy, PartialEq, Eq, Structural, Debug)]
pub enum Wiring {
    MenuBound,
    HandlersBound,
}

/// The wiring owed for registry state `m`: handlers exactly when some
/// command is bound, the quit menu otherwise.
pub open spec fn spec_wiring(m: RegistryModel) -> WiringPlan {
    if m.any_bound() {
        WiringPlan::Handlers { set_primary_action: m.primary is Some }
    } else {
        WiringPlan::Menu
    }
}

/// The wiring state after the installer ran: a failed installation
/// degrades to the menu rather than leaving the control half-wired.
pub open spec fn spec_resolve_install(w: WiringPlan, install_ok: bool) -> Wiring {
    match w {
        WiringPlan::Menu => Wiring::MenuBound,
        WiringPlan::Handlers { .. } => if install_ok {
            Wiring::HandlersBound
        } else {
            Wiring::MenuBound
        },
    }
}

/// Decides the wiring for the current registry: dynamic gesture binding
/// exactly when at least one command is configured, the static quit menu
/// otherwise.
pub fn plan_wiring(reg: &CommandRegistry) -> (w: WiringPlan)
    ensures
        w == spec_wiring(reg@),
{
    let primary = reg.get(Gesture::Primary);
    let secondary = reg.get(Gesture::Secondary);
    if primary.is_some() || secondary.is_some() {
        WiringPlan::Handlers { set_primary_action: primary.is_some() }
    } else {
        WiringPlan::Menu
    }
}

/// Folds the installer's outcome into the final wiring state. A plan for
/// handlers whose installation failed falls back to the menu; a menu plan
/// needs no installation and always ends menu-bound.
pub fn resolve_install(w: WiringPlan, install_ok: bool) -> (r: Wiring)
    ensures
        r == spec_resolve_install(w, install_ok),
{
    match w {
        WiringPlan::Menu => Wiring::MenuBound,
        WiringPlan::Handlers { .. } => if install_ok {
            Wiring::HandlersBound
        } else {
            Wiring::MenuBound
        },
    }
}

/// How the control is to be rendered.
#[derive(Debug, Clone, PartialEq, Eq)]
pub enum RenderPlan {
    /// A text label replaces the icon: the image is cleared and the title
    /// set to the label.
    Text { label: String },
    /// The icon is shown; `template` asks the shell to recolour it as a
    /// monochrome template rather than drawing it in full colour.
    Icon { template: bool },
}

/// Model of a render plan, over character sequences.
pub enum RenderModel {
    Text(Seq<char>),
    Icon { template: bool },
}

impl View for RenderPlan {
    type V = RenderModel;

    open spec fn view(&self) -> RenderModel {
        match self {
            RenderPlan::Text { label } => RenderModel::Text(label@),
            RenderPlan::Icon { template } => RenderModel::Icon { template: *template },
        }
    }
}

/// The rendering owed for configuration `c`: the text label when one was
/// given, else the icon, recoloured as a template unless full colour was
/// asked for.
pub open spec fn spec_render(c: ConfigModel) -> RenderModel {
    match c.label {
        Some(l) => RenderModel::Text(l),
        None => RenderModel::Icon { template: !c.use_colour },
    }
}

/// Decides how the control is rendered for this configuration.
pub fn render_plan(config: &TrayConfig) -> (r: RenderPlan)
    ensures
        r@ == spec_render(config@),
{
    match &config.label {
        Some(l) => RenderPlan::Text { label: l.clone() },
        None => RenderPlan::Icon { template: !config.use_colour },
    }
}

/// Where the icon image is read from.
#[derive(Clone, Copy, PartialEq, Eq, Structural, Debug)]
pub enum IconSource {
    /// The image found under the application bundle's resources.
    Bundle,
    /// The development fallback: a path relative to the working
    /// directory, tried when the bundle offers no image.
    FallbackPath,
}

/// Decides where the icon is read from, given whether the bundle lookup
/// produced a path.
pub fn icon_source(bundle_has_path: bool) -> (s: IconSource)
    ensures
        s == (if bundle_has_path {
            IconSource::Bundle
        } else {
            IconSource::FallbackPath
        }),
{
    if bundle_has_path {
        IconSource::Bundle
    } else {
        IconSource::FallbackPath
    }
}

} // verus!
