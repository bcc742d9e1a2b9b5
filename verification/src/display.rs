//! The texts that the interface shows: list rows, the status line and the
//! wizard's summary of accepted ports.

use crate::configuration::{IptablesRule, Proxy, ProxyModel, RuleModel};
use crate::text::{decimal, join, join_strings, push_decimal, texts};
use crate::search::{lemma_visible_exact, names_of};
use crate::tui::{App, AppModel, InputMode};
use crate::wizard::{CreationField, CreationState, WizardModel};
use vstd::prelude::*;
use vstd::string::*;

verus! {

/// The row of a configuration: a filled mark before the name of the active
/// one, a hollow mark before any other.
pub open spec fn config_label_of(name: Seq<char>, active: bool) -> Seq<char> {
    if active {
        "● "@ + name
    } else {
        "○ "@ + name
    }
}

/// The row of a proxy: type, host and port.
pub open spec fn proxy_line_of(proxy: ProxyModel) -> Seq<char> {
    proxy.proxy_type + " - "@ + proxy.url + ":"@ + decimal(proxy.port)
}

/// The row of a rule: source port and target port.
pub open spec fn rule_line_of(rule: RuleModel) -> Seq<char> {
    decimal(rule.dport) + " → "@ + decimal(rule.to_port)
}

/// The accepted redirect ports, separated by commas; `None` without any.
pub open spec fn ports_summary_of(ports: Seq<Seq<char>>) -> Seq<char> {
    if ports.len() == 0 {
        "None"@
    } else {
        join(ports, ", "@)
    }
}

/// The key hints of a mode; in `Normal` mode the hint for deactivation shows
/// only while a configuration is active.
pub open spec fn mode_hint(mode: InputMode, active: bool) -> Seq<char> {
    match mode {
        InputMode::Normal => if active {
            "Mode: Normal │ q: quit │ c: create │ x: deactivate proxy │ /: search │ ↑↓: navigate"@
        } else {
            "Mode: Normal │ q: quit │ c: create │ /: search │ ↑↓: navigate"@
        },
        InputMode::Editing => "Mode: Editing │ ESC: cancel │ Enter: confirm"@,
        InputMode::Creating => "Mode: Creating │ ESC: cancel │ ↑/↓: navigate │ Enter: confirm"@,
    }
}

/// The status line: the hints of the mode, a space, and the search query
/// after its label where the query is not empty.
pub open spec fn status_line_of(app: AppModel) -> Seq<char> {
    if app.search_query.len() > 0 {
        mode_hint(app.input_mode, app.store.active.is_some()) + " "@ + "Search: "@
            + app.search_query
    } else {
        mode_hint(app.input_mode, app.store.active.is_some()) + " "@
    }
}

/// The shares, in percent, of a strip that a centred part of `percent`
/// percent divides it into: what is left over goes in equal parts before and
/// after, rounded down.
pub fn centered_shares(percent: u16) -> (r: (u16, u16, u16))
    requires
        percent <= 100,
    ensures
        r.0 == (100 - percent) / 2,
        r.1 == percent,
        r.2 == (100 - percent) / 2,
{
    ((100 - percent) / 2, percent, (100 - percent) / 2)
}

/// The row of the configuration called `name`.
pub fn config_label(name: &str, active: bool) -> (r: String)
    ensures
        r@ == config_label_of(name@, active),
{
    if active {
        String::from_str("● ").concat(name)
    } else {
        String::from_str("○ ").concat(name)
    }
}

/// The row of `proxy` in the proxy pane.
pub fn proxy_line(proxy: &Proxy) -> (r: String)
    ensures
        r@ == proxy_line_of(proxy@),
{
    let mut out = proxy.proxy_type.clone();
    out.append(" - ");
    out.append(proxy.url.as_str());
    out.append(":");
    push_decimal(&mut out, proxy.port as u128);
    assert(out@ =~= proxy_line_of(proxy@));
    out
}

/// The row of `rule` in the rules pane.
pub fn rule_line(rule: &IptablesRule) -> (r: String)
    ensures
        r@ == rule_line_of(rule@),
{
    let mut out = String::new();
    push_decimal(&mut out, rule.dport as u128);
    out.append(" → ");
    push_decimal(&mut out, rule.to_port as u128);
    assert(out@ =~= rule_line_of(rule@));
    out
}

/// The wizard's summary of the accepted redirect ports.
pub fn ports_summary(ports: &Vec<String>) -> (r: String)
    ensures
        r@ == ports_summary_of(texts(ports@)),
{
    if ports.len() == 0 {
        String::from_str("None")
    } else {
        join_strings(ports, ", ")
    }
}

/// The status line of the interface.
pub fn status_line(app: &App) -> (r: String)
    ensures
        r@ == status_line_of(app@),
{
    let active = app.store().active().is_some();
    let hint = match app.input_mode() {
        InputMode::Normal => if active {
            "Mode: Normal │ q: quit │ c: create │ x: deactivate proxy │ /: search │ ↑↓: navigate"
        } else {
            "Mode: Normal │ q: quit │ c: create │ /: search │ ↑↓: navigate"
        },
        InputMode::Editing => "Mode: Editing │ ESC: cancel │ Enter: confirm",
        InputMode::Creating => "Mode: Creating │ ESC: cancel │ ↑/↓: navigate │ Enter: confirm",
    };
    let mut out = String::from_str(hint);
    out.append(" ");
    if app.search_query().unicode_len() > 0 {
        out.append("Search: ");
        out.append(app.search_query());
    }
    assert(out@ =~= status_line_of(app@));
    out
}

/// The labels of the visible rows, in display order: for each visible store
/// index the label of its configuration, marked where it is the active one.
pub open spec fn config_labels_of(app: AppModel) -> Seq<Seq<char>> {
    Seq::new(
        app.filtered_configs.len(),
        |k: int|
            config_label_of(
                app.store.configurations[app.filtered_configs[k] as int].name,
                app.store.is_active(app.filtered_configs[k] as int),
            ),
    )
}

/// The labels of the rows of the configuration pane.
pub fn config_labels(app: &App) -> (r: Vec<String>)
    requires
        app.wf(),
    ensures
        texts(r@) == config_labels_of(app@),
{
    let rows = app.filtered_configs();
    let store = app.store();
    let active = store.active();
    let mut out: Vec<String> = Vec::new();
    let mut k: usize = 0;
    proof {
        lemma_visible_exact(names_of(app@.store.configurations), app@.search_query);
    }
    while k < rows.len()
        invariant
            k <= rows.len(),
            rows@ == app@.filtered_configs,
            store@ == app@.store,
            active == app@.store.active,
            forall|j: int|
                0 <= j < rows@.len() ==> (#[trigger] rows@[j]) < store@.configurations.len(),
            texts(out@) == config_labels_of(app@).take(k as int),
        decreases rows.len() - k,
    {
        let index = rows[k];
        let is_active = match active {
            Some(a) => a == index,
            None => false,
        };
        let label = match store.get(index) {
            Some(configuration) => config_label(configuration.name.as_str(), is_active),
            None => String::new(),
        };
        let ghost before = out@;
        out.push(label);
        proof {
            assert(texts(out@) =~= texts(before).push(label@));
            assert(texts(out@) =~= config_labels_of(app@).take(k + 1));
        }
        k = k + 1;
    }
    proof {
        assert(config_labels_of(app@).take(rows@.len() as int) =~= config_labels_of(app@));
    }
    out
}

/// One line of the wizard's form.
#[derive(Debug, PartialEq, Eq)]
pub struct FieldRow {
    pub label: String,
    pub value: String,
    /// Whether the line is the one that takes the input.
    pub active: bool,
}

/// The mathematical value of a [`FieldRow`].
pub struct FieldRowModel {
    pub label: Seq<char>,
    pub value: Seq<char>,
    pub active: bool,
}

impl View for FieldRow {
    type V = FieldRowModel;

    open spec fn view(&self) -> FieldRowModel {
        FieldRowModel { label: self.label@, value: self.value@, active: self.active }
    }
}

/// The values of a list of form lines, in list order.
pub open spec fn row_models(rows: Seq<FieldRow>) -> Seq<FieldRowModel> {
    Seq::new(rows.len(), |i: int| rows[i]@)
}

/// The lines of the wizard's form: one per buffer with the focused one
/// active, the accepted redirect ports as their summary, and, while the focus
/// is on the redirect ports, the pending port input as one more active line.
pub open spec fn wizard_rows_of(wizard: WizardModel) -> Seq<FieldRowModel> {
    let fixed = seq![
        FieldRowModel {
            label: "Name"@,
            value: wizard.name,
            active: wizard.current_field == CreationField::Name,
        },
        FieldRowModel {
            label: "Proxy Type"@,
            value: wizard.proxy_type,
            active: wizard.current_field == CreationField::ProxyType,
        },
        FieldRowModel {
            label: "Proxy URL"@,
            value: wizard.proxy_url,
            active: wizard.current_field == CreationField::ProxyUrl,
        },
        FieldRowModel {
            label: "Proxy Port"@,
            value: wizard.proxy_port,
            active: wizard.current_field == CreationField::ProxyPort,
        },
        FieldRowModel {
            label: "Redirect Ports"@,
            value: ports_summary_of(wizard.redirect_ports),
            active: wizard.current_field == CreationField::RedirectPorts,
        },
    ];
    if wizard.current_field == CreationField::RedirectPorts {
        fixed.push(
            FieldRowModel {
                label: "Current Input"@,
                value: wizard.current_port_input,
                active: true,
            },
        )
    } else {
        fixed
    }
}

fn field_row(label: &str, value: &str, active: bool) -> (r: FieldRow)
    ensures
        r@ == (FieldRowModel { label: label@, value: value@, active }),
{
    FieldRow { label: String::from_str(label), value: String::from_str(value), active }
}

/// The lines of the wizard's form.
pub fn wizard_rows(wizard: &CreationState) -> (r: Vec<FieldRow>)
    ensures
        row_models(r@) == wizard_rows_of(wizard@),
{
    let field = wizard.current_field();
    let ports = wizard.redirect_ports();
    let summary = ports_summary(ports);
    proof {
        assert(texts(ports@) =~= wizard@.redirect_ports);
    }
    let mut out: Vec<FieldRow> = Vec::new();
    out.push(field_row("Name", wizard.name(), field == CreationField::Name));
    out.push(field_row("Proxy Type", wizard.proxy_type(), field == CreationField::ProxyType));
    out.push(field_row("Proxy URL", wizard.proxy_url(), field == CreationField::ProxyUrl));
    out.push(field_row("Proxy Port", wizard.proxy_port(), field == CreationField::ProxyPort));
    out.push(field_row("Redirect Ports", summary.as_str(), field == CreationField::RedirectPorts));
    if field == CreationField::RedirectPorts {
        out.push(field_row("Current Input", wizard.current_port_input(), true));
    }
    proof {
        assert(row_models(out@) =~= wizard_rows_of(wizard@));
    }
    out
}

} // verus!
