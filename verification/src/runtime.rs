//! The identities that runtime work is bound to: the Space instance it runs
//! for and the versioned configuration it runs under.

use vstd::prelude::*;

use crate::json::{Datum, Json};
use crate::text;

verus! {

/// One instance of a Space.
#[derive(Debug)]
pub struct RuntimeScope {
    pub space_id: String,
    pub space_instance: String,
}

/// A versioned piece of configuration.
#[derive(Debug)]
pub struct RuntimePin {
    pub id: String,
    pub digest: String,
}

/// The configuration that a piece of work was started under.
#[derive(Debug)]
pub struct RuntimePins {
    pub policy: RuntimePin,
    pub evaluator: Option<RuntimePin>,
    pub binding: Option<RuntimePin>,
}

/// A Space instance together with its pinned configuration.
#[derive(Debug)]
pub struct AttentionConfig {
    pub scope: RuntimeScope,
    pub pins: RuntimePins,
}

/// A copy of an optional text.
pub fn optional_copy(a: &Option<String>) -> (r: Option<String>)
    ensures
        r == *a,
{
    match a {
        Some(x) => Some(x.clone()),
        None => None,
    }
}

impl RuntimeScope {
    pub open spec fn same_as(self, other: RuntimeScope) -> bool {
        self.space_id@ == other.space_id@ && self.space_instance@ == other.space_instance@
    }

    pub fn same(&self, other: &RuntimeScope) -> (r: bool)
        ensures
            r == self.same_as(*other),
    {
        text::same(self.space_id.as_str(), other.space_id.as_str()) && text::same(
            self.space_instance.as_str(),
            other.space_instance.as_str(),
        )
    }

    pub fn copy(&self) -> (r: RuntimeScope)
        ensures
            r == *self,
    {
        RuntimeScope {
            space_id: self.space_id.clone(),
            space_instance: self.space_instance.clone(),
        }
    }

    /// The JSON value of a scope.
    pub open spec fn value(self) -> Datum {
        Datum::empty().with("space_id"@, Datum::Text(self.space_id@)).with(
            "space_instance"@,
            Datum::Text(self.space_instance@),
        )
    }

    pub fn to_json(&self) -> (r: Json)
        ensures
            r@ == self.value(),
    {
        Json::object().with("space_id", Json::text(self.space_id.as_str())).with(
            "space_instance",
            Json::text(self.space_instance.as_str()),
        )
    }
}

impl RuntimePin {
    pub open spec fn same_as(self, other: RuntimePin) -> bool {
        self.id@ == other.id@ && self.digest@ == other.digest@
    }

    pub fn same(&self, other: &RuntimePin) -> (r: bool)
        ensures
            r == self.same_as(*other),
    {
        text::same(self.id.as_str(), other.id.as_str()) && text::same(
            self.digest.as_str(),
            other.digest.as_str(),
        )
    }

    pub fn copy(&self) -> (r: RuntimePin)
        ensures
            r == *self,
    {
        RuntimePin { id: self.id.clone(), digest: self.digest.clone() }
    }

    pub open spec fn value(self) -> Datum {
        Datum::empty().with("id"@, Datum::Text(self.id@)).with(
            "digest"@,
            Datum::Text(self.digest@),
        )
    }

    pub fn to_json(&self) -> (r: Json)
        ensures
            r@ == self.value(),
    {
        Json::object().with("id", Json::text(self.id.as_str())).with(
            "digest",
            Json::text(self.digest.as_str()),
        )
    }
}

pub open spec fn same_pin(a: Option<RuntimePin>, b: Option<RuntimePin>) -> bool {
    match (a, b) {
        (Some(x), Some(y)) => x.same_as(y),
        (None, None) => true,
        _ => false,
    }
}

pub fn optional_pin_same(a: &Option<RuntimePin>, b: &Option<RuntimePin>) -> (r: bool)
    ensures
        r == same_pin(*a, *b),
{
    match (a, b) {
        (Some(x), Some(y)) => x.same(y),
        (None, None) => true,
        _ => false,
    }
}

fn optional_pin_copy(a: &Option<RuntimePin>) -> (r: Option<RuntimePin>)
    ensures
        r == *a,
{
    match a {
        Some(x) => Some(x.copy()),
        None => None,
    }
}

pub open spec fn optional_pin_value(a: Option<RuntimePin>) -> Datum {
    match a {
        Some(x) => x.value(),
        None => Datum::Null,
    }
}

fn optional_pin_json(a: &Option<RuntimePin>) -> (r: Json)
    ensures
        r@ == optional_pin_value(*a),
{
    match a {
        Some(x) => x.to_json(),
        None => Json::Null,
    }
}

impl RuntimePins {
    pub open spec fn same_as(self, other: RuntimePins) -> bool {
        self.policy.same_as(other.policy) && same_pin(self.evaluator, other.evaluator) && same_pin(
            self.binding,
            other.binding,
        )
    }

    pub fn same(&self, other: &RuntimePins) -> (r: bool)
        ensures
            r == self.same_as(*other),
    {
        self.policy.same(&other.policy) && optional_pin_same(&self.evaluator, &other.evaluator)
            && optional_pin_same(&self.binding, &other.binding)
    }

    pub fn copy(&self) -> (r: RuntimePins)
        ensures
            r == *self,
    {
        RuntimePins {
            policy: self.policy.copy(),
            evaluator: optional_pin_copy(&self.evaluator),
            binding: optional_pin_copy(&self.binding),
        }
    }

    pub open spec fn value(self) -> Datum {
        Datum::empty().with("policy"@, self.policy.value()).with(
            "evaluator"@,
            optional_pin_value(self.evaluator),
        ).with("binding"@, optional_pin_value(self.binding))
    }

    pub fn to_json(&self) -> (r: Json)
        ensures
            r@ == self.value(),
    {
        Json::object().with("policy", self.policy.to_json()).with(
            "evaluator",
            optional_pin_json(&self.evaluator),
        ).with("binding", optional_pin_json(&self.binding))
    }
}

/// Pins are the same exactly where identity and digest of policy, evaluator and binding are,
/// and where the same of them are there.
pub proof fn pins_are_the_same_by_their_parts(a: RuntimePins, b: RuntimePins)
    ensures
        a.same_as(b) <==> {
            &&& a.policy.id@ == b.policy.id@ && a.policy.digest@ == b.policy.digest@
            &&& a.evaluator is Some <==> b.evaluator is Some
            &&& a.evaluator is Some && b.evaluator is Some ==> a.evaluator->0.id@
                == b.evaluator->0.id@ && a.evaluator->0.digest@ == b.evaluator->0.digest@
            &&& a.binding is Some <==> b.binding is Some
            &&& a.binding is Some && b.binding is Some ==> a.binding->0.id@ == b.binding->0.id@
                && a.binding->0.digest@ == b.binding->0.digest@
        },
{
}

/// Scopes are the same exactly where Space and instance are.
pub proof fn scopes_are_the_same_by_their_parts(a: RuntimeScope, b: RuntimeScope)
    ensures
        a.same_as(b) <==> a.space_id@ == b.space_id@ && a.space_instance@ == b.space_instance@,
{
}

} // verus!
