//! The creation wizard: a sequence of input fields that ends in a new
//! configuration.

use crate::configuration::{
    Configuration, ConfigurationModel, IptablesRule, Proxy, ProxyModel, RuleModel, BASE_PORT,
};
use crate::text::{all_digits, is_decimal_digit, is_digit, number_or_zero, number_within};
use vstd::prelude::*;
use vstd::string::*;

verus! {

/// The fields of the wizard, in the order in which they are visited.
#[derive(Clone, Copy, Debug, PartialEq, Eq, Structural)]
pub enum CreationField {
    Name,
    ProxyType,
    ProxyUrl,
    ProxyPort,
    RedirectPorts,
    Confirm,
}

impl CreationField {
    /// The field after this one; `Confirm` is the last and stays.
    pub open spec fn successor(self) -> CreationField {
        match self {
            CreationField::Name => CreationField::ProxyType,
            CreationField::ProxyType => CreationField::ProxyUrl,
            CreationField::ProxyUrl => CreationField::ProxyPort,
            CreationField::ProxyPort => CreationField::RedirectPorts,
            CreationField::RedirectPorts => CreationField::Confirm,
            CreationField::Confirm => CreationField::Confirm,
        }
    }

    /// The field before this one; `Name` is the first and stays.
    pub open spec fn predecessor(self) -> CreationField {
        match self {
            CreationField::Name => CreationField::Name,
            CreationField::ProxyType => CreationField::Name,
            CreationField::ProxyUrl => CreationField::ProxyType,
            CreationField::ProxyPort => CreationField::ProxyUrl,
            CreationField::RedirectPorts => CreationField::ProxyPort,
            CreationField::Confirm => CreationField::RedirectPorts,
        }
    }

    /// The position of the field in the visiting order, from 0.
    pub open spec fn position(self) -> nat {
        match self {
            CreationField::Name => 0,
            CreationField::ProxyType => 1,
            CreationField::ProxyUrl => 2,
            CreationField::ProxyPort => 3,
            CreationField::RedirectPorts => 4,
            CreationField::Confirm => 5,
        }
    }

    /// Computes [`CreationField::successor`].
    pub fn next(self) -> (r: CreationField)
        ensures
            r == self.successor(),
    {
        match self {
            CreationField::Name => CreationField::ProxyType,
            CreationField::ProxyType => CreationField::ProxyUrl,
            CreationField::ProxyUrl => CreationField::ProxyPort,
            CreationField::ProxyPort => CreationField::RedirectPorts,
            CreationField::RedirectPorts => CreationField::Confirm,
            CreationField::Confirm => CreationField::Confirm,
        }
    }

    /// Computes [`CreationField::predecessor`].
    pub fn previous(self) -> (r: CreationField)
        ensures
            r == self.predecessor(),
    {
        match self {
            CreationField::Name => CreationField::Name,
            CreationField::ProxyType => CreationField::Name,
            CreationField::ProxyUrl => CreationField::ProxyType,
            CreationField::ProxyPort => CreationField::ProxyUrl,
            CreationField::RedirectPorts => CreationField::ProxyPort,
            CreationField::Confirm => CreationField::RedirectPorts,
        }
    }
}

/// Forward and backward mirror each other: stepping forward moves one
/// position up except at `Confirm`, stepping back one position down except at
/// `Name`, and each undoes the other wherever the first one moved.
pub proof fn lemma_field_order(field: CreationField)
    ensures
        field != CreationField::Confirm ==> field.successor().position() == field.position() + 1
            && field.successor().predecessor() == field,
        field != CreationField::Name ==> field.predecessor().position() + 1 == field.position()
            && field.predecessor().successor() == field,
        CreationField::Confirm.successor() == CreationField::Confirm,
        CreationField::Name.predecessor() == CreationField::Name,
{
}

/// Removing the last character, if there is one.
pub open spec fn without_last(s: Seq<char>) -> Seq<char> {
    if s.len() == 0 {
        s
    } else {
        s.drop_last()
    }
}

/// The action that every rule made by the wizard carries.
pub open spec fn redirect_action() -> Seq<char> {
    "REDIRECT"@
}

/// The mathematical value of a [`CreationState`].
pub struct WizardModel {
    pub current_field: CreationField,
    pub name: Seq<char>,
    pub proxy_type: Seq<char>,
    pub proxy_url: Seq<char>,
    pub proxy_port: Seq<char>,
    pub redirect_ports: Seq<Seq<char>>,
    pub current_port_input: Seq<char>,
}

impl WizardModel {
    /// A fresh wizard: on `Name`, every buffer empty.
    pub open spec fn initial() -> WizardModel {
        WizardModel {
            current_field: CreationField::Name,
            name: Seq::empty(),
            proxy_type: Seq::empty(),
            proxy_url: Seq::empty(),
            proxy_port: Seq::empty(),
            redirect_ports: Seq::empty(),
            current_port_input: Seq::empty(),
        }
    }

    /// The numeric buffers hold digits only, and every accepted redirect port
    /// is a non-empty run of digits.
    pub open spec fn wf(self) -> bool {
        &&& all_digits(self.proxy_port)
        &&& all_digits(self.current_port_input)
        &&& forall|i: int|
            0 <= i < self.redirect_ports.len() ==> all_digits(#[trigger] self.redirect_ports[i])
                && self.redirect_ports[i].len() > 0
    }

    /// One step forward.
    pub open spec fn advanced(self) -> WizardModel {
        WizardModel { current_field: self.current_field.successor(), ..self }
    }

    /// One step back.
    pub open spec fn retreated(self) -> WizardModel {
        WizardModel { current_field: self.current_field.predecessor(), ..self }
    }

    /// A character typed into the focused field. The two port buffers take
    /// digits only; `Confirm` takes nothing.
    pub open spec fn typed(self, c: char) -> WizardModel {
        match self.current_field {
            CreationField::Name => WizardModel { name: self.name.push(c), ..self },
            CreationField::ProxyType => WizardModel {
                proxy_type: self.proxy_type.push(c),
                ..self
            },
            CreationField::ProxyUrl => WizardModel { proxy_url: self.proxy_url.push(c), ..self },
            CreationField::ProxyPort => if is_digit(c) {
                WizardModel { proxy_port: self.proxy_port.push(c), ..self }
            } else {
                self
            },
            CreationField::RedirectPorts => if is_digit(c) {
                WizardModel { current_port_input: self.current_port_input.push(c), ..self }
            } else {
                self
            },
            CreationField::Confirm => self,
        }
    }

    /// The last character of the focused field's buffer removed; on
    /// `RedirectPorts` that buffer is the pending port input.
    pub open spec fn erased(self) -> WizardModel {
        match self.current_field {
            CreationField::Name => WizardModel { name: without_last(self.name), ..self },
            CreationField::ProxyType => WizardModel {
                proxy_type: without_last(self.proxy_type),
                ..self
            },
            CreationField::ProxyUrl => WizardModel {
                proxy_url: without_last(self.proxy_url),
                ..self
            },
            CreationField::ProxyPort => WizardModel {
                proxy_port: without_last(self.proxy_port),
                ..self
            },
            CreationField::RedirectPorts => WizardModel {
                current_port_input: without_last(self.current_port_input),
                ..self
            },
            CreationField::Confirm => self,
        }
    }

    /// The confirm action anywhere but on `Confirm`. On `RedirectPorts` a
    /// non-empty pending input joins the accepted ports and the wizard stays
    /// on the field; on the fields before it the wizard steps forward.
    pub open spec fn entered(self) -> WizardModel {
        match self.current_field {
            CreationField::RedirectPorts => if self.current_port_input.len() > 0 {
                WizardModel {
                    redirect_ports: self.redirect_ports.push(self.current_port_input),
                    current_port_input: Seq::empty(),
                    ..self
                }
            } else {
                self
            },
            CreationField::Confirm => self,
            _ => self.advanced(),
        }
    }

    /// The one proxy that the wizard describes.
    pub open spec fn proxy(self) -> ProxyModel {
        ProxyModel {
            proxy_type: self.proxy_type,
            url: self.proxy_url,
            port: number_within(self.proxy_port, u32::MAX as nat),
        }
    }

    /// One rule per accepted redirect port, in the order of entry, each to
    /// the base chain port.
    pub open spec fn rules(self) -> Seq<RuleModel> {
        Seq::new(
            self.redirect_ports.len(),
            |i: int|
                RuleModel {
                    dport: number_within(self.redirect_ports[i], u16::MAX as nat),
                    to_port: BASE_PORT as nat,
                    action: redirect_action(),
                },
        )
    }

    /// The configuration that confirming the wizard creates.
    pub open spec fn configuration(self) -> ConfigurationModel {
        ConfigurationModel { name: self.name, proxies: seq![self.proxy()], rules: self.rules() }
    }
}

/// Every step of the wizard keeps its buffers well formed.
pub proof fn lemma_wizard_steps_keep_wf(wizard: WizardModel, c: char)
    requires
        wizard.wf(),
    ensures
        wizard.advanced().wf(),
        wizard.retreated().wf(),
        wizard.typed(c).wf(),
        wizard.erased().wf(),
        wizard.entered().wf(),
        WizardModel::initial().wf(),
{
    let typed = wizard.typed(c);
    assert(all_digits(typed.proxy_port)) by {
        assert forall|i: int| 0 <= i < typed.proxy_port.len() implies is_digit(
            #[trigger] typed.proxy_port[i],
        ) by {
            if i < wizard.proxy_port.len() {
                assert(typed.proxy_port[i] == wizard.proxy_port[i]);
            }
        }
    }
    assert(all_digits(typed.current_port_input)) by {
        assert forall|i: int| 0 <= i < typed.current_port_input.len() implies is_digit(
            #[trigger] typed.current_port_input[i],
        ) by {
            if i < wizard.current_port_input.len() {
                assert(typed.current_port_input[i] == wizard.current_port_input[i]);
            }
        }
    }
    let erased = wizard.erased();
    assert(all_digits(erased.proxy_port)) by {
        assert forall|i: int| 0 <= i < erased.proxy_port.len() implies is_digit(
            #[trigger] erased.proxy_port[i],
        ) by {
            assert(erased.proxy_port[i] == wizard.proxy_port[i]);
        }
    }
    assert(all_digits(erased.current_port_input)) by {
        assert forall|i: int| 0 <= i < erased.current_port_input.len() implies is_digit(
            #[trigger] erased.current_port_input[i],
        ) by {
            assert(erased.current_port_input[i] == wizard.current_port_input[i]);
        }
    }
    let entered = wizard.entered();
    assert forall|i: int| 0 <= i < entered.redirect_ports.len() implies all_digits(
        #[trigger] entered.redirect_ports[i],
    ) && entered.redirect_ports[i].len() > 0 by {
        if i < wizard.redirect_ports.len() {
            assert(entered.redirect_ports[i] == wizard.redirect_ports[i]);
        }
    }
}

/// The state of one run of the wizard: the focused field and what has been
/// typed so far.
#[derive(Debug)]
pub struct CreationState {
    current_field: CreationField,
    name: String,
    proxy_type: String,
    proxy_url: String,
    proxy_port: String,
    redirect_ports: Vec<String>,
    current_port_input: String,
}

impl View for CreationState {
    type V = WizardModel;

    closed spec fn view(&self) -> WizardModel {
        WizardModel {
            current_field: self.current_field,
            name: self.name@,
            proxy_type: self.proxy_type@,
            proxy_url: self.proxy_url@,
            proxy_port: self.proxy_port@,
            redirect_ports: Seq::new(
                self.redirect_ports@.len(),
                |i: int| self.redirect_ports@[i]@,
            ),
            current_port_input: self.current_port_input@,
        }
    }
}

impl CreationState {
    /// The invariant of the wizard: see [`WizardModel::wf`].
    pub open spec fn wf(&self) -> bool {
        self@.wf()
    }

    /// A fresh wizard on its first field.
    pub fn new() -> (r: CreationState)
        ensures
            r@ == WizardModel::initial(),
            r.wf(),
    {
        let r = CreationState {
            current_field: CreationField::Name,
            name: String::new(),
            proxy_type: String::new(),
            proxy_url: String::new(),
            proxy_port: String::new(),
            redirect_ports: Vec::new(),
            current_port_input: String::new(),
        };
        proof {
            assert(r@.redirect_ports =~= Seq::<Seq<char>>::empty());
        }
        r
    }

    /// Moves the focus one field forward; no check of the input holds it back.
    pub fn next_field(&mut self)
        ensures
            final(self)@ == old(self)@.advanced(),
            old(self).wf() ==> final(self).wf(),
    {
        self.current_field = self.current_field.next();
    }

    /// Moves the focus one field back.
    pub fn previous_field(&mut self)
        ensures
            final(self)@ == old(self)@.retreated(),
            old(self).wf() ==> final(self).wf(),
    {
        self.current_field = self.current_field.previous();
    }

    /// Routes a typed character to the buffer of the focused field.
    pub fn type_char(&mut self, c: char)
        requires
            old(self).wf(),
        ensures
            final(self)@ == old(self)@.typed(c),
            final(self).wf(),
    {
        match self.current_field {
            CreationField::Name => self.name.push(c),
            CreationField::ProxyType => self.proxy_type.push(c),
            CreationField::ProxyUrl => self.proxy_url.push(c),
            CreationField::ProxyPort => {
                if is_decimal_digit(c) {
                    self.proxy_port.push(c);
                }
            },
            CreationField::RedirectPorts => {
                if is_decimal_digit(c) {
                    self.current_port_input.push(c);
                }
            },
            CreationField::Confirm => {},
        }
        proof {
            assert(final(self)@.redirect_ports =~= old(self)@.redirect_ports);
        }
    }

    /// Removes the last character of the focused field's buffer.
    pub fn backspace(&mut self)
        requires
            old(self).wf(),
        ensures
            final(self)@ == old(self)@.erased(),
            final(self).wf(),
    {
        match self.current_field {
            CreationField::Name => {
                self.name.pop();
            },
            CreationField::ProxyType => {
                self.proxy_type.pop();
            },
            CreationField::ProxyUrl => {
                self.proxy_url.pop();
            },
            CreationField::ProxyPort => {
                self.proxy_port.pop();
            },
            CreationField::RedirectPorts => {
                self.current_port_input.pop();
            },
            CreationField::Confirm => {},
        }
        proof {
            assert(final(self)@.redirect_ports =~= old(self)@.redirect_ports);
        }
    }

    /// The confirm action. Returns `true`, leaving the wizard as it is,
    /// exactly when the focus is on `Confirm`: the caller then creates the
    /// configuration and ends the wizard. Otherwise the wizard takes the step
    /// of [`WizardModel::entered`].
    pub fn enter(&mut self) -> (confirmed: bool)
        requires
            old(self).wf(),
        ensures
            confirmed == (old(self)@.current_field == CreationField::Confirm),
            final(self)@ == old(self)@.entered(),
            final(self).wf(),
    {
        match self.current_field {
            CreationField::RedirectPorts => {
                if self.current_port_input.as_str().unicode_len() > 0 {
                    self.redirect_ports.push(self.current_port_input.clone());
                    self.current_port_input = String::new();
                    proof {
                        assert(final(self)@.redirect_ports =~= old(self)@.redirect_ports.push(
                            old(self)@.current_port_input,
                        ));
                    }
                }
                false
            },
            CreationField::Confirm => true,
            _ => {
                self.next_field();
                false
            },
        }
    }

    /// The focused field.
    pub fn current_field(&self) -> (r: CreationField)
        ensures
            r == self@.current_field,
    {
        self.current_field
    }

    /// What has been typed as the name.
    pub fn name(&self) -> (r: &str)
        ensures
            r@ == self@.name,
    {
        self.name.as_str()
    }

    /// What has been typed as the proxy type.
    pub fn proxy_type(&self) -> (r: &str)
        ensures
            r@ == self@.proxy_type,
    {
        self.proxy_type.as_str()
    }

    /// What has been typed as the proxy host.
    pub fn proxy_url(&self) -> (r: &str)
        ensures
            r@ == self@.proxy_url,
    {
        self.proxy_url.as_str()
    }

    /// The digits typed as the proxy port.
    pub fn proxy_port(&self) -> (r: &str)
        ensures
            r@ == self@.proxy_port,
    {
        self.proxy_port.as_str()
    }

    /// The digits of the redirect port that is being typed.
    pub fn current_port_input(&self) -> (r: &str)
        ensures
            r@ == self@.current_port_input,
    {
        self.current_port_input.as_str()
    }

    /// The accepted redirect ports, in the order of entry.
    pub fn redirect_ports(&self) -> (r: &Vec<String>)
        ensures
            r@.len() == self@.redirect_ports.len(),
            forall|i: int| 0 <= i < r@.len() ==> r@[i]@ == self@.redirect_ports[i],
    {
        &self.redirect_ports
    }

    /// The configuration that the wizard describes: its name, a chain of the
    /// one proxy, and one rule per accepted redirect port. A port buffer that
    /// is empty or denotes a number too large for its field gives port 0.
    pub fn build(&self) -> (r: Configuration)
        ensures
            r@ == self@.configuration(),
    {
        let r = Configuration::new(self.name.clone(), self.build_proxies(), self.build_rules());
        proof {
            assert(r@.proxies =~= self@.configuration().proxies);
            assert(r@.rules =~= self@.configuration().rules);
        }
        r
    }

    /// The chain of the configuration that the wizard describes: one proxy.
    fn build_proxies(&self) -> (r: Vec<Proxy>)
        ensures
            r@.len() == 1,
            r@[0]@ == self@.proxy(),
    {
        let mut out: Vec<Proxy> = Vec::new();
        out.push(
            Proxy {
                proxy_type: self.proxy_type.clone(),
                url: self.proxy_url.clone(),
                port: number_or_zero(self.proxy_port.as_str(), u32::MAX),
            },
        );
        out
    }

    /// The rules of the configuration that the wizard describes: one per
    /// accepted redirect port.
    fn build_rules(&self) -> (r: Vec<IptablesRule>)
        ensures
            r@.len() == self@.rules().len(),
            forall|i: int| 0 <= i < r@.len() ==> r@[i]@ == self@.rules()[i],
    {
        let mut out: Vec<IptablesRule> = Vec::new();
        let mut i: usize = 0;
        while i < self.redirect_ports.len()
            invariant
                i <= self.redirect_ports.len(),
                out@.len() == i,
                forall|k: int| 0 <= k < i ==> out@[k]@ == self@.rules()[k],
            decreases self.redirect_ports.len() - i,
        {
            let dport = number_or_zero(self.redirect_ports[i].as_str(), 65535);
            out.push(
                IptablesRule {
                    dport: dport as u16,
                    to_port: BASE_PORT,
                    action: String::from_str("REDIRECT"),
                },
            );
            i = i + 1;
        }
        out
    }
}

} // verus!
