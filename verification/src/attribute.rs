//! A single DOM/XML attribute: a name, an optional namespace qualifier, and a
//! payload that is exactly one of a static value, an imperative function-call
//! value, or an event callback.

use crate::callback::Callback;
use crate::callback::Composed;
use crate::callback::FnHandler;
use crate::callback::Handler;
use crate::value::Value;
use vstd::prelude::*;
use vstd::string::StringExecFns;

verus! {

/// An attribute name that can be rendered as text.
pub trait ToText {
    /// The text of this name.
    spec fn text(&self) -> Seq<char>;

    /// Renders the name as exactly the text `text` describes.
    fn to_text(&self) -> (r: String)
        ensures
            r@ == self.text(),
    ;
}

impl ToText for String {
    open spec fn text(&self) -> Seq<char> {
        self@
    }

    fn to_text(&self) -> (r: String) {
        self.clone()
    }
}

impl<'a> ToText for &'a str {
    open spec fn text(&self) -> Seq<char> {
        self@
    }

    fn to_text(&self) -> (r: String) {
        String::from_str(self)
    }
}

/// The payload of an attribute: exactly one variant is active, the tag is
/// fixed at construction, and transformations produce new instances.
#[verifier::reject_recursive_types(EVENT)]
#[verifier::reject_recursive_types(MSG)]
pub enum AttribValue<EVENT, MSG, F> {
    /// A normal attribute value, part of serialized markup.
    Value(Value),
    /// A value fed to an imperative property or function call, never markup.
    FuncCall(Value),
    /// An event callback, bound imperatively by a renderer, never markup.
    Callback(Callback<EVENT, MSG, F>),
}

impl<EVENT, MSG, F> AttribValue<EVENT, MSG, F> {
    /// The static value this payload holds, for both value-like variants.
    pub open spec fn spec_value(self) -> Option<Value> {
        match self {
            AttribValue::Value(v) => Some(v),
            AttribValue::FuncCall(v) => Some(v),
            AttribValue::Callback(_) => None,
        }
    }

    /// The callback this payload holds, for the callback variant alone.
    pub open spec fn spec_callback(self) -> Option<Callback<EVENT, MSG, F>> {
        match self {
            AttribValue::Value(_) => None,
            AttribValue::FuncCall(_) => None,
            AttribValue::Callback(c) => Some(c),
        }
    }

    /// The text this payload contributes to markup: the value's text for the
    /// normal variant, empty for the imperative variants.
    pub open spec fn text(self) -> Seq<char> {
        match self {
            AttribValue::Value(v) => v.text(),
            AttribValue::FuncCall(_) => Seq::empty(),
            AttribValue::Callback(_) => Seq::empty(),
        }
    }

    /// The payload is a normal value.
    pub fn is_value(&self) -> (r: bool)
        ensures
            r == (self is Value),
    {
        match self {
            AttribValue::Value(_) => true,
            _ => false,
        }
    }

    /// The payload is an event callback.
    pub fn is_event(&self) -> (r: bool)
        ensures
            r == (self is Callback),
    {
        match self {
            AttribValue::Callback(_) => true,
            _ => false,
        }
    }

    /// The payload is an imperative function-call value.
    pub fn is_func_call(&self) -> (r: bool)
        ensures
            r == (self is FuncCall),
    {
        match self {
            AttribValue::FuncCall(_) => true,
            _ => false,
        }
    }

    /// Borrows the callback if the payload is the callback variant.
    pub fn get_callback(&self) -> (r: Option<&Callback<EVENT, MSG, F>>)
        ensures
            match r {
                Some(c) => self.spec_callback() == Some(*c),
                None => self.spec_callback() is None,
            },
    {
        match self {
            AttribValue::Value(_) => None,
            AttribValue::FuncCall(_) => None,
            AttribValue::Callback(cb) => Some(cb),
        }
    }

    /// Consumes the payload; yields the owned callback exactly when the
    /// payload is the callback variant.
    pub fn take_callback(self) -> (r: Option<Callback<EVENT, MSG, F>>)
        ensures
            r == self.spec_callback(),
            r is None <==> !(self is Callback),
    {
        match self {
            AttribValue::Value(_) => None,
            AttribValue::FuncCall(_) => None,
            AttribValue::Callback(cb) => Some(cb),
        }
    }

    /// Borrows the static value; both value-like variants satisfy it.
    pub fn get_value(&self) -> (r: Option<&Value>)
        ensures
            match r {
                Some(v) => self.spec_value() == Some(*v),
                None => self.spec_value() is None,
            },
    {
        match self {
            AttribValue::Value(value) => Some(value),
            AttribValue::FuncCall(value) => Some(value),
            AttribValue::Callback(_) => None,
        }
    }

    /// Renders the text this payload contributes to markup.
    pub fn render(&self) -> (r: String)
        ensures
            r@ == self.text(),
    {
        match self {
            AttribValue::Value(value) => value.render(),
            AttribValue::FuncCall(_) => String::new(),
            AttribValue::Callback(_) => String::new(),
        }
    }
}

impl<EVENT, MSG, F: Handler<EVENT, MSG>> AttribValue<EVENT, MSG, F> {
    /// Postcomposes the callback with `cb`; value-like variants pass through
    /// untouched, only their message type parameter changing.
    pub fn map_callback<MSG2, G: Handler<MSG, MSG2>>(self, cb: Callback<MSG, MSG2, G>) -> (r:
        AttribValue<EVENT, MSG2, Composed<MSG, F, G>>)
        ensures
            r is Value <==> self is Value,
            r is FuncCall <==> self is FuncCall,
            r is Callback <==> self is Callback,
            r.spec_value() == self.spec_value(),
            self matches AttribValue::Callback(c) ==> (r matches AttribValue::Callback(c2)
                && c2.wf() == (c.wf() && cb.wf()) && (forall|e: EVENT|
                c2.model(e) == cb.model(c.model(e)))),
    {
        match self {
            AttribValue::Value(value) => AttribValue::Value(value),
            AttribValue::FuncCall(value) => AttribValue::FuncCall(value),
            AttribValue::Callback(existing) => AttribValue::Callback(existing.map_callback(cb)),
        }
    }

    /// Precomposes the callback with `func`; value-like variants pass through
    /// untouched, only their event type parameter changing.
    pub fn reform<EVENT2, H: Fn(EVENT2) -> EVENT>(self, func: H) -> (r: AttribValue<
        EVENT2,
        MSG,
        Composed<EVENT, FnHandler<EVENT2, EVENT, H>, F>,
    >)
        requires
            forall|e: EVENT2| #[trigger] call_requires(func, (e,)),
            forall|e: EVENT2, y1: EVENT, y2: EVENT|
                call_ensures(func, (e,), y1) && call_ensures(func, (e,), y2) ==> y1 == y2,
        ensures
            r is Value <==> self is Value,
            r is FuncCall <==> self is FuncCall,
            r is Callback <==> self is Callback,
            r.spec_value() == self.spec_value(),
            self matches AttribValue::Callback(c) ==> (r matches AttribValue::Callback(c2)
                && c2.wf() == c.wf() && (forall|e: EVENT2, y: EVENT|
                #[trigger] call_ensures(func, (e,), y) ==> c2.model(e) == c.model(y))),
    {
        match self {
            AttribValue::Value(value) => AttribValue::Value(value),
            AttribValue::FuncCall(value) => AttribValue::FuncCall(value),
            AttribValue::Callback(cb) => AttribValue::Callback(cb.reform(func)),
        }
    }
}

/// A single attribute of a virtual node: a name token, a payload, and an
/// optional XML-namespace qualifier.
#[verifier::reject_recursive_types(EVENT)]
#[verifier::reject_recursive_types(MSG)]
pub struct Attribute<ATT, EVENT, MSG, F> {
    /// The attribute's name token.
    pub name: ATT,
    /// The attribute's payload.
    pub value: AttribValue<EVENT, MSG, F>,
    /// The XML-namespace qualifier, absent unless the attribute requires one.
    pub namespace: Option<String>,
}

impl<ATT, EVENT, MSG, F> Attribute<ATT, EVENT, MSG, F> {
    /// Builds an event attribute from a callback; the namespace defaults to
    /// absent.
    pub fn from_callback(name: ATT, cb: Callback<EVENT, MSG, F>) -> (r: Self)
        ensures
            r.name == name,
            r.value == AttribValue::Callback(cb),
            r.namespace is None,
    {
        Attribute { name, value: AttribValue::from(cb), namespace: None }
    }

    /// Builds a static-value attribute; the namespace defaults to absent.
    pub fn from_value(name: ATT, value: Value) -> (r: Self)
        ensures
            r.name == name,
            r.value == AttribValue::<EVENT, MSG, F>::Value(value),
            r.namespace is None,
    {
        Attribute { name, value: AttribValue::from(value), namespace: None }
    }

    /// The attribute carries an event callback.
    pub fn is_event(&self) -> (r: bool)
        ensures
            r == (self.value is Callback),
    {
        self.value.is_event()
    }

    /// The attribute carries a normal value.
    pub fn is_value(&self) -> (r: bool)
        ensures
            r == (self.value is Value),
    {
        self.value.is_value()
    }

    /// The attribute carries an imperative function-call value.
    pub fn is_func_call(&self) -> (r: bool)
        ensures
            r == (self.value is FuncCall),
    {
        self.value.is_func_call()
    }

    /// Borrows the static value; both value-like payloads satisfy it.
    pub fn get_value(&self) -> (r: Option<&Value>)
        ensures
            match r {
                Some(v) => self.value.spec_value() == Some(*v),
                None => self.value.spec_value() is None,
            },
    {
        self.value.get_value()
    }

    /// Borrows the callback if the payload is the callback variant.
    pub fn get_callback(&self) -> (r: Option<&Callback<EVENT, MSG, F>>)
        ensures
            match r {
                Some(c) => self.value.spec_callback() == Some(*c),
                None => self.value.spec_callback() is None,
            },
    {
        self.value.get_callback()
    }

    /// Consumes the attribute; yields the owned callback exactly when the
    /// payload is the callback variant.
    pub fn take_callback(self) -> (r: Option<Callback<EVENT, MSG, F>>)
        ensures
            r == self.value.spec_callback(),
            r is None <==> !(self.value is Callback),
    {
        self.value.take_callback()
    }
}

impl<ATT, EVENT, MSG, F: Handler<EVENT, MSG>> Attribute<ATT, EVENT, MSG, F> {
    /// Postcomposes the attribute's callback with `cb`, keeping the name and
    /// the namespace; value-like payloads pass through untouched.
    pub fn map_callback<MSG2, G: Handler<MSG, MSG2>>(self, cb: Callback<MSG, MSG2, G>) -> (r:
        Attribute<ATT, EVENT, MSG2, Composed<MSG, F, G>>)
        ensures
            r.name == self.name,
            r.namespace == self.namespace,
            r.value is Value <==> self.value is Value,
            r.value is FuncCall <==> self.value is FuncCall,
            r.value is Callback <==> self.value is Callback,
            r.value.spec_value() == self.value.spec_value(),
            self.value matches AttribValue::Callback(c) ==> (r.value matches AttribValue::Callback(
                c2,
            ) && c2.wf() == (c.wf() && cb.wf()) && (forall|e: EVENT|
                c2.model(e) == cb.model(c.model(e)))),
    {
        Attribute {
            name: self.name,
            value: self.value.map_callback(cb),
            namespace: self.namespace,
        }
    }

    /// Precomposes the attribute's callback with `func`, keeping the name and
    /// the namespace; value-like payloads pass through untouched.
    pub fn reform<EVENT2, H: Fn(EVENT2) -> EVENT>(self, func: H) -> (r: Attribute<
        ATT,
        EVENT2,
        MSG,
        Composed<EVENT, FnHandler<EVENT2, EVENT, H>, F>,
    >)
        requires
            forall|e: EVENT2| #[trigger] call_requires(func, (e,)),
            forall|e: EVENT2, y1: EVENT, y2: EVENT|
                call_ensures(func, (e,), y1) && call_ensures(func, (e,), y2) ==> y1 == y2,
        ensures
            r.name == self.name,
            r.namespace == self.namespace,
            r.value is Value <==> self.value is Value,
            r.value is FuncCall <==> self.value is FuncCall,
            r.value is Callback <==> self.value is Callback,
            r.value.spec_value() == self.value.spec_value(),
            self.value matches AttribValue::Callback(c) ==> (r.value matches AttribValue::Callback(
                c2,
            ) && c2.wf() == c.wf() && (forall|e: EVENT2, y: EVENT|
                #[trigger] call_ensures(func, (e,), y) ==> c2.model(e) == c.model(y))),
    {
        Attribute { name: self.name, value: self.value.reform(func), namespace: self.namespace }
    }
}

impl<ATT: ToText, EVENT, MSG, F> Attribute<ATT, EVENT, MSG, F> {
    /// The attribute markup this attribute renders as: `name="value"`, with
    /// the namespace prefixed as `namespace:name="value"` when present, for
    /// the normal value payload; empty text for the imperative payloads.
    pub open spec fn pretty(self) -> Seq<char> {
        match self.value {
            AttribValue::Value(v) => match self.namespace {
                Some(ns) => ns@ + ":"@ + self.name.text() + "=\""@ + v.text() + "\""@,
                None => self.name.text() + "=\""@ + v.text() + "\""@,
            },
            _ => Seq::empty(),
        }
    }

    /// Produces attribute markup only for the normal value payload, as
    /// `pretty` describes; imperative bindings are never part of markup.
    pub fn to_pretty_string(&self) -> (r: String)
        ensures
            r@ == self.pretty(),
    {
        match &self.value {
            AttribValue::Value(v) => {
                let mut buffer = String::new();
                if let Some(ns) = &self.namespace {
                    buffer.append(ns.as_str());
                    buffer.append(":");
                }
                let name_text = self.name.to_text();
                buffer.append(name_text.as_str());
                buffer.append("=\"");
                let value_text = v.render();
                buffer.append(value_text.as_str());
                buffer.append("\"");
                buffer
            },
            _ => String::new(),
        }
    }
}

impl<EVENT, MSG, F> From<Value> for AttribValue<EVENT, MSG, F> {
    /// Classifies a plain value as a normal attribute value.
    fn from(value: Value) -> (r: Self) {
        AttribValue::Value(value)
    }
}

impl<EVENT, MSG, F> vstd::std_specs::convert::FromSpecImpl<Value> for AttribValue<EVENT, MSG, F> {
    open spec fn obeys_from_spec() -> bool {
        true
    }

    open spec fn from_spec(value: Value) -> Self {
        AttribValue::Value(value)
    }
}

impl<EVENT, MSG, F> From<Callback<EVENT, MSG, F>> for AttribValue<EVENT, MSG, F> {
    /// Classifies a callback as an event payload.
    fn from(cb: Callback<EVENT, MSG, F>) -> (r: Self) {
        AttribValue::Callback(cb)
    }
}

impl<EVENT, MSG, F> vstd::std_specs::convert::FromSpecImpl<Callback<EVENT, MSG, F>> for AttribValue<EVENT, MSG, F> {
    open spec fn obeys_from_spec() -> bool {
        true
    }

    open spec fn from_spec(cb: Callback<EVENT, MSG, F>) -> Self {
        AttribValue::Callback(cb)
    }
}

/// Exactly one classification holds of any attribute payload.
pub proof fn lemma_classification_exclusive<EVENT, MSG, F>(v: AttribValue<EVENT, MSG, F>)
    ensures
        (v is Value) || (v is FuncCall) || (v is Callback),
        !((v is Value) && (v is FuncCall)),
        !((v is Value) && (v is Callback)),
        !((v is FuncCall) && (v is Callback)),
{
}

/// A value attribute without a namespace renders as `name="text"`.
pub proof fn lemma_value_renders<ATT: ToText, EVENT, MSG, F>(
    a: Attribute<ATT, EVENT, MSG, F>,
    v: Value,
)
    requires
        a.value == AttribValue::<EVENT, MSG, F>::Value(v),
        a.namespace is None,
    ensures
        a.pretty() == a.name.text() + "=\""@ + v.text() + "\""@,
{
}

/// A value attribute with a namespace renders with the namespace prefixed.
pub proof fn lemma_namespaced_value_renders<ATT: ToText, EVENT, MSG, F>(
    a: Attribute<ATT, EVENT, MSG, F>,
    v: Value,
    ns: String,
)
    requires
        a.value == AttribValue::<EVENT, MSG, F>::Value(v),
        a.namespace == Some(ns),
    ensures
        a.pretty() == ns@ + ":"@ + a.name.text() + "=\""@ + v.text() + "\""@,
{
}

/// An attribute whose payload is not a normal value renders as empty text.
pub proof fn lemma_non_value_renders_empty<ATT: ToText, EVENT, MSG, F>(
    a: Attribute<ATT, EVENT, MSG, F>,
)
    requires
        !(a.value is Value),
    ensures
        a.pretty() == Seq::<char>::empty(),
{
}

} // verus!
