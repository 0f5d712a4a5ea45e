use enumorph::{Enumorph, EnumorphAs};

#[derive(Debug, PartialEq)]
enum Enum<T, U> {
    A(A<T>),
    B(B<U>),
}

#[derive(Debug, PartialEq)]
struct A<T>(T);

#[derive(Debug, PartialEq)]
struct B<U>(U);

impl<T, U> TryFrom<Enum<T, U>> for A<T> {
    type Error = Enum<T, U>;

    fn try_from(value: Enum<T, U>) -> Result<Self, Self::Error> {
        match value {
            Enum::A(t) => Ok(t),
            #[allow(unreachable_patterns)]
            _ => Err(value),
        }
    }
}

impl<T, U> From<A<T>> for Enum<T, U> {
    fn from(value: A<T>) -> Self {
        Enum::A(value)
    }
}

impl<T, U> TryFrom<Enum<T, U>> for B<U> {
    type Error = Enum<T, U>;

    fn try_from(value: Enum<T, U>) -> Result<Self, Self::Error> {
        match value {
            Enum::B(t) => Ok(t),
            #[allow(unreachable_patterns)]
            _ => Err(value),
        }
    }
}

impl<T, U> From<B<U>> for Enum<T, U> {
    fn from(value: B<U>) -> Self {
        Enum::B(value)
    }
}

#[derive(Debug, PartialEq)]
enum Outer {
    B(Unit1),
    C(Unit2),
    D(Inner),
}

#[derive(Debug, PartialEq)]
struct Unit1;

#[derive(Debug, PartialEq)]
struct Unit2;

#[derive(Debug, PartialEq)]
enum Inner {
    E(Unit3),
}

#[derive(Debug, PartialEq)]
struct Unit3;

impl TryFrom<Outer> for Unit1 {
    type Error = Outer;

    fn try_from(value: Outer) -> Result<Self, Self::Error> {
        match value {
            Outer::B(t) => Ok(t),
            #[allow(unreachable_patterns)]
            _ => Err(value),
        }
    }
}

impl From<Unit1> for Outer {
    fn from(value: Unit1) -> Self {
        Outer::B(value)
    }
}

impl TryFrom<Outer> for Unit2 {
    type Error = Outer;

    fn try_from(value: Outer) -> Result<Self, Self::Error> {
        match value {
            Outer::C(t) => Ok(t),
            #[allow(unreachable_patterns)]
            _ => Err(value),
        }
    }
}

impl From<Unit2> for Outer {
    fn from(value: Unit2) -> Self {
        Outer::C(value)
    }
}

impl TryFrom<Outer> for Inner {
    type Error = Outer;

    fn try_from(value: Outer) -> Result<Self, Self::Error> {
        match value {
            Outer::D(t) => Ok(t),
            #[allow(unreachable_patterns)]
            _ => Err(value),
        }
    }
}

impl From<Inner> for Outer {
    fn from(value: Inner) -> Self {
        Outer::D(value)
    }
}

impl TryFrom<Inner> for Unit3 {
    type Error = Inner;

    fn try_from(value: Inner) -> Result<Self, Self::Error> {
        match value {
            Inner::E(t) => Ok(t),
            #[allow(unreachable_patterns)]
            _ => Err(value),
        }
    }
}

impl From<Unit3> for Inner {
    fn from(value: Unit3) -> Self {
        Inner::E(value)
    }
}

fn takes_enumorph<T: Enumorph<U>, U>(t: T) -> U {
    t.into()
}

#[test]
fn enumorph_as() {
    assert_eq!(A("a").widen::<Enum<&str, u8>>(), Enum::A(A("a")));
    assert_eq!(Enum::<&str, u8>::A(A("a")).narrow::<A<_>>(), Ok(A("a")));

    assert_eq!(B(1).widen::<Enum<&str, u8>>(), Enum::B(B(1)));
    assert_eq!(Enum::<&str, u8>::B(B(1)).narrow::<B<_>>(), Ok(B(1)));
}

#[test]
fn try_from_into() {
    assert!(matches!(Outer::B(Unit1).try_into(), Ok(Unit1)));
    assert!(matches!(Outer::C(Unit2).try_into(), Ok(Unit2)));
    assert!(matches!(Outer::D(Inner::E(Unit3)).try_into(), Ok(Inner::E(Unit3))));

    assert!(matches!(Unit1.into(), Outer::B(Unit1)));
    assert!(matches!(Unit2.into(), Outer::C(Unit2)));
    assert!(matches!(Inner::E(Unit3).into(), Outer::D(Inner::E(Unit3))));
}

#[test]
fn narrow_mismatch_returns_value() {
    assert_eq!(Enum::<&str, u8>::B(B(7)).narrow::<A<_>>(), Err(Enum::B(B(7))));
    assert_eq!(Outer::C(Unit2).narrow::<Unit1>(), Err(Outer::C(Unit2)));
}

#[test]
fn enumorph_bound_converts() {
    assert_eq!(takes_enumorph::<Unit1, Outer>(Unit1), Outer::B(Unit1));
    assert_eq!(takes_enumorph::<Unit3, Inner>(Unit3), Inner::E(Unit3));
}
