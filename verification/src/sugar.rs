//! Declarative descriptions of DOM element trees.
//!
//! A [`Tag`] and the wrapper types around it build up a pure description of
//! an element: its tag name, class, attributes, text or markup, and
//! children. Turning a description into a real element is host work that
//! the shell performs by walking the description.

use vstd::prelude::*;

verus! {

/// An element description: just a tag name, such as `"div"`.
#[derive(Clone, Copy)]
pub struct Tag(pub &'static str);

/// A description with text content.
pub struct WithText<T>(pub T, pub &'static str);

/// A description with raw markup content.
pub struct WithHtml<T>(pub T, pub &'static str);

/// A description with one child.
pub struct WithChild<T, C>(pub T, pub C);

/// A description with two children.
pub struct WithChild2<T, C0, C1>(pub T, pub C0, pub C1);

/// A description with three children.
pub struct WithChild3<T, C0, C1, C2>(pub T, pub C0, pub C1, pub C2);

/// A description with one attribute set.
pub struct WithAttr<T>(pub T, pub &'static str, pub &'static str);

/// A description with a class name set.
pub struct WithClass<T>(pub T, pub &'static str);

impl Tag {
    /// Adds a class name.
    pub fn class(self, class: &'static str) -> (r: WithClass<Self>)
        ensures
            r.0 == self && r.1 == class,
    {
        WithClass(self, class)
    }

    /// Adds an attribute.
    pub fn attr(self, attr: &'static str, value: &'static str) -> (r: WithAttr<Self>)
        ensures
            r.0 == self && r.1 == attr && r.2 == value,
    {
        WithAttr(self, attr, value)
    }

    /// Adds text content.
    pub fn text(self, text: &'static str) -> (r: WithText<Self>)
        ensures
            r.0 == self && r.1 == text,
    {
        WithText(self, text)
    }

    /// Adds raw markup content.
    pub fn html(self, html: &'static str) -> (r: WithHtml<Self>)
        ensures
            r.0 == self && r.1 == html,
    {
        WithHtml(self, html)
    }

    /// Adds one child.
    pub fn child<C>(self, child: C) -> (r: WithChild<Self, C>)
        ensures
            r.0 == self && r.1 == child,
    {
        WithChild(self, child)
    }

    /// Adds two children.
    pub fn child2<C0, C1>(self, child0: C0, child1: C1) -> (r: WithChild2<Self, C0, C1>)
        ensures
            r.0 == self && r.1 == child0 && r.2 == child1,
    {
        WithChild2(self, child0, child1)
    }

    /// Adds three children.
    pub fn child3<C0, C1, C2>(self, child0: C0, child1: C1, child2: C2) -> (r: WithChild3<
        Self,
        C0,
        C1,
        C2,
    >)
        ensures
            r.0 == self && r.1 == child0 && r.2 == child1 && r.3 == child2,
    {
        WithChild3(self, child0, child1, child2)
    }
}

impl<T> WithClass<T> {
    /// Adds an attribute.
    pub fn attr(self, attr: &'static str, value: &'static str) -> (r: WithAttr<Self>)
        ensures
            r.1 == attr && r.2 == value,
    {
        WithAttr(self, attr, value)
    }

    /// Adds text content.
    pub fn text(self, text: &'static str) -> (r: WithText<Self>)
        ensures
            r.1 == text,
    {
        WithText(self, text)
    }

    /// Adds raw markup content.
    pub fn html(self, html: &'static str) -> (r: WithHtml<Self>)
        ensures
            r.1 == html,
    {
        WithHtml(self, html)
    }

    /// Adds one child.
    pub fn child<C>(self, child: C) -> (r: WithChild<Self, C>) {
        WithChild(self, child)
    }

    /// Adds two children.
    pub fn child2<C0, C1>(self, child0: C0, child1: C1) -> (r: WithChild2<Self, C0, C1>) {
        WithChild2(self, child0, child1)
    }

    /// Adds three children.
    pub fn child3<C0, C1, C2>(self, child0: C0, child1: C1, child2: C2) -> (r: WithChild3<
        Self,
        C0,
        C1,
        C2,
    >) {
        WithChild3(self, child0, child1, child2)
    }
}

impl<T> WithAttr<T> {
    /// Adds another attribute.
    pub fn attr(self, attr: &'static str, value: &'static str) -> (r: WithAttr<Self>)
        ensures
            r.1 == attr && r.2 == value,
    {
        WithAttr(self, attr, value)
    }

    /// Adds text content.
    pub fn text(self, text: &'static str) -> (r: WithText<Self>)
        ensures
            r.1 == text,
    {
        WithText(self, text)
    }

    /// Adds one child.
    pub fn child<C>(self, child: C) -> (r: WithChild<Self, C>) {
        WithChild(self, child)
    }

    /// Adds two children.
    pub fn child2<C0, C1>(self, child0: C0, child1: C1) -> (r: WithChild2<Self, C0, C1>) {
        WithChild2(self, child0, child1)
    }
}

} // verus!
