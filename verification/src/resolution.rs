use crate::dependencies::FromTypeMap;
use crate::dependencies::TypeMap;
use vstd::prelude::*;

verus! {

/// The empty tuple always resolves.
impl FromTypeMap for () {
    open spec fn resolves(tm: &TypeMap, found: Option<Self>) -> bool {
        found.is_some()
    }

    fn retrieve_from_map(tm: &TypeMap) -> (found: Option<Self>) {
        Some(())
    }
}

/// A tuple of one resolves when its element does, and fails when
/// it fails.
impl<A: FromTypeMap> FromTypeMap for (A,) {
    open spec fn resolves(tm: &TypeMap, found: Option<Self>) -> bool {
        match found {
            Some(t) => A::resolves(tm, Some(t.0)),
            None => A::resolves(tm, None),
        }
    }

    fn retrieve_from_map(tm: &TypeMap) -> (found: Option<Self>) {
        let a = match A::retrieve_from_map(tm) {
            Some(v) => v,
            None => {
                return None;
            },
        };
        Some((a,))
    }
}

/// A tuple of two resolves when each of its elements does, and fails when
/// one of them fails.
impl<A: FromTypeMap, B: FromTypeMap> FromTypeMap for (A, B) {
    open spec fn resolves(tm: &TypeMap, found: Option<Self>) -> bool {
        match found {
            Some(t) => A::resolves(tm, Some(t.0))
                && B::resolves(tm, Some(t.1)),
            None => A::resolves(tm, None)
                || B::resolves(tm, None),
        }
    }

    fn retrieve_from_map(tm: &TypeMap) -> (found: Option<Self>) {
        let a = match A::retrieve_from_map(tm) {
            Some(v) => v,
            None => {
                return None;
            },
        };
        let b = match B::retrieve_from_map(tm) {
            Some(v) => v,
            None => {
                return None;
            },
        };
        Some((a, b))
    }
}

/// A tuple of three resolves when each of its elements does, and fails when
/// one of them fails.
impl<A: FromTypeMap, B: FromTypeMap, C: FromTypeMap> FromTypeMap for (A, B, C) {
    open spec fn resolves(tm: &TypeMap, found: Option<Self>) -> bool {
        match found {
            Some(t) => A::resolves(tm, Some(t.0))
                && B::resolves(tm, Some(t.1))
                && C::resolves(tm, Some(t.2)),
            None => A::resolves(tm, None)
                || B::resolves(tm, None)
                || C::resolves(tm, None),
        }
    }

    fn retrieve_from_map(tm: &TypeMap) -> (found: Option<Self>) {
        let a = match A::retrieve_from_map(tm) {
            Some(v) => v,
            None => {
                return None;
            },
        };
        let b = match B::retrieve_from_map(tm) {
            Some(v) => v,
            None => {
                return None;
            },
        };
        let c = match C::retrieve_from_map(tm) {
            Some(v) => v,
            None => {
                return None;
            },
        };
        Some((a, b, c))
    }
}

/// A tuple of four resolves when each of its elements does, and fails when
/// one of them fails.
impl<A: FromTypeMap, B: FromTypeMap, C: FromTypeMap, D: FromTypeMap> FromTypeMap for (A, B, C, D) {
    open spec fn resolves(tm: &TypeMap, found: Option<Self>) -> bool {
        match found {
            Some(t) => A::resolves(tm, Some(t.0))
                && B::resolves(tm, Some(t.1))
                && C::resolves(tm, Some(t.2))
                && D::resolves(tm, Some(t.3)),
            None => A::resolves(tm, None)
                || B::resolves(tm, None)
                || C::resolves(tm, None)
                || D::resolves(tm, None),
        }
    }

    fn retrieve_from_map(tm: &TypeMap) -> (found: Option<Self>) {
        let a = match A::retrieve_from_map(tm) {
            Some(v) => v,
            None => {
                return None;
            },
        };
        let b = match B::retrieve_from_map(tm) {
            Some(v) => v,
            None => {
                return None;
            },
        };
        let c = match C::retrieve_from_map(tm) {
            Some(v) => v,
            None => {
                return None;
            },
        };
        let d = match D::retrieve_from_map(tm) {
            Some(v) => v,
            None => {
                return None;
            },
        };
        Some((a, b, c, d))
    }
}

/// A tuple of five resolves when each of its elements does, and fails when
/// one of them fails.
impl<A: FromTypeMap, B: FromTypeMap, C: FromTypeMap, D: FromTypeMap, E: FromTypeMap> FromTypeMap for (A, B, C, D, E) {
    open spec fn resolves(tm: &TypeMap, found: Option<Self>) -> bool {
        match found {
            Some(t) => A::resolves(tm, Some(t.0))
                && B::resolves(tm, Some(t.1))
                && C::resolves(tm, Some(t.2))
                && D::resolves(tm, Some(t.3))
                && E::resolves(tm, Some(t.4)),
            None => A::resolves(tm, None)
                || B::resolves(tm, None)
                || C::resolves(tm, None)
                || D::resolves(tm, None)
                || E::resolves(tm, None),
        }
    }

    fn retrieve_from_map(tm: &TypeMap) -> (found: Option<Self>) {
        let a = match A::retrieve_from_map(tm) {
            Some(v) => v,
            None => {
                return None;
            },
        };
        let b = match B::retrieve_from_map(tm) {
            Some(v) => v,
            None => {
                return None;
            },
        };
        let c = match C::retrieve_from_map(tm) {
            Some(v) => v,
            None => {
                return None;
            },
        };
        let d = match D::retrieve_from_map(tm) {
            Some(v) => v,
            None => {
                return None;
            },
        };
        let e = match E::retrieve_from_map(tm) {
            Some(v) => v,
            None => {
                return None;
            },
        };
        Some((a, b, c, d, e))
    }
}

/// A tuple of six resolves when each of its elements does, and fails when
/// one of them fails.
impl<A: FromTypeMap, B: FromTypeMap, C: FromTypeMap, D: FromTypeMap, E: FromTypeMap, F: FromTypeMap> FromTypeMap for (A, B, C, D, E, F) {
    open spec fn resolves(tm: &TypeMap, found: Option<Self>) -> bool {
        match found {
            Some(t) => A::resolves(tm, Some(t.0))
                && B::resolves(tm, Some(t.1))
                && C::resolves(tm, Some(t.2))
                && D::resolves(tm, Some(t.3))
                && E::resolves(tm, Some(t.4))
                && F::resolves(tm, Some(t.5)),
            None => A::resolves(tm, None)
                || B::resolves(tm, None)
                || C::resolves(tm, None)
                || D::resolves(tm, None)
                || E::resolves(tm, None)
                || F::resolves(tm, None),
        }
    }

    fn retrieve_from_map(tm: &TypeMap) -> (found: Option<Self>) {
        let a = match A::retrieve_from_map(tm) {
            Some(v) => v,
            None => {
                return None;
            },
        };
        let b = match B::retrieve_from_map(tm) {
            Some(v) => v,
            None => {
                return None;
            },
        };
        let c = match C::retrieve_from_map(tm) {
            Some(v) => v,
            None => {
                return None;
            },
        };
        let d = match D::retrieve_from_map(tm) {
            Some(v) => v,
            None => {
                return None;
            },
        };
        let e = match E::retrieve_from_map(tm) {
            Some(v) => v,
            None => {
                return None;
            },
        };
        let f = match F::retrieve_from_map(tm) {
            Some(v) => v,
            None => {
                return None;
            },
        };
        Some((a, b, c, d, e, f))
    }
}

/// A tuple of seven resolves when each of its elements does, and fails when
/// one of them fails.
impl<A: FromTypeMap, B: FromTypeMap, C: FromTypeMap, D: FromTypeMap, E: FromTypeMap, F: FromTypeMap, G: FromTypeMap> FromTypeMap for (A, B, C, D, E, F, G) {
    open spec fn resolves(tm: &TypeMap, found: Option<Self>) -> bool {
        match found {
            Some(t) => A::resolves(tm, Some(t.0))
                && B::resolves(tm, Some(t.1))
                && C::resolves(tm, Some(t.2))
                && D::resolves(tm, Some(t.3))
                && E::resolves(tm, Some(t.4))
                && F::resolves(tm, Some(t.5))
                && G::resolves(tm, Some(t.6)),
            None => A::resolves(tm, None)
                || B::resolves(tm, None)
                || C::resolves(tm, None)
                || D::resolves(tm, None)
                || E::resolves(tm, None)
                || F::resolves(tm, None)
                || G::resolves(tm, None),
        }
    }

    fn retrieve_from_map(tm: &TypeMap) -> (found: Option<Self>) {
        let a = match A::retrieve_from_map(tm) {
            Some(v) => v,
            None => {
                return None;
            },
        };
        let b = match B::retrieve_from_map(tm) {
            Some(v) => v,
            None => {
                return None;
            },
        };
        let c = match C::retrieve_from_map(tm) {
            Some(v) => v,
            None => {
                return None;
            },
        };
        let d = match D::retrieve_from_map(tm) {
            Some(v) => v,
            None => {
                return None;
            },
        };
        let e = match E::retrieve_from_map(tm) {
            Some(v) => v,
            None => {
                return None;
            },
        };
        let f = match F::retrieve_from_map(tm) {
            Some(v) => v,
            None => {
                return None;
            },
        };
        let g = match G::retrieve_from_map(tm) {
            Some(v) => v,
            None => {
                return None;
            },
        };
        Some((a, b, c, d, e, f, g))
    }
}

/// A tuple of eight resolves when each of its elements does, and fails when
/// one of them fails.
impl<A: FromTypeMap, B: FromTypeMap, C: FromTypeMap, D: FromTypeMap, E: FromTypeMap, F: FromTypeMap, G: FromTypeMap, H: FromTypeMap> FromTypeMap for (A, B, C, D, E, F, G, H) {
    open spec fn resolves(tm: &TypeMap, found: Option<Self>) -> bool {
        match found {
            Some(t) => A::resolves(tm, Some(t.0))
                && B::resolves(tm, Some(t.1))
                && C::resolves(tm, Some(t.2))
                && D::resolves(tm, Some(t.3))
                && E::resolves(tm, Some(t.4))
                && F::resolves(tm, Some(t.5))
                && G::resolves(tm, Some(t.6))
                && H::resolves(tm, Some(t.7)),
            None => A::resolves(tm, None)
                || B::resolves(tm, None)
                || C::resolves(tm, None)
                || D::resolves(tm, None)
                || E::resolves(tm, None)
                || F::resolves(tm, None)
                || G::resolves(tm, None)
                || H::resolves(tm, None),
        }
    }

    fn retrieve_from_map(tm: &TypeMap) -> (found: Option<Self>) {
        let a = match A::retrieve_from_map(tm) {
            Some(v) => v,
            None => {
                return None;
            },
        };
        let b = match B::retrieve_from_map(tm) {
            Some(v) => v,
            None => {
                return None;
            },
        };
        let c = match C::retrieve_from_map(tm) {
            Some(v) => v,
            None => {
                return None;
            },
        };
        let d = match D::retrieve_from_map(tm) {
            Some(v) => v,
            None => {
                return None;
            },
        };
        let e = match E::retrieve_from_map(tm) {
            Some(v) => v,
            None => {
                return None;
            },
        };
        let f = match F::retrieve_from_map(tm) {
            Some(v) => v,
            None => {
                return None;
            },
        };
        let g = match G::retrieve_from_map(tm) {
            Some(v) => v,
            None => {
                return None;
            },
        };
        let h = match H::retrieve_from_map(tm) {
            Some(v) => v,
            None => {
                return None;
            },
        };
        Some((a, b, c, d, e, f, g, h))
    }
}

/// A tuple of nine resolves when each of its elements does, and fails when
/// one of them fails.
impl<A: FromTypeMap, B: FromTypeMap, C: FromTypeMap, D: FromTypeMap, E: FromTypeMap, F: FromTypeMap, G: FromTypeMap, H: FromTypeMap, I: FromTypeMap> FromTypeMap for (A, B, C, D, E, F, G, H, I) {
    open spec fn resolves(tm: &TypeMap, found: Option<Self>) -> bool {
        match found {
            Some(t) => A::resolves(tm, Some(t.0))
                && B::resolves(tm, Some(t.1))
                && C::resolves(tm, Some(t.2))
                && D::resolves(tm, Some(t.3))
                && E::resolves(tm, Some(t.4))
                && F::resolves(tm, Some(t.5))
                && G::resolves(tm, Some(t.6))
                && H::resolves(tm, Some(t.7))
                && I::resolves(tm, Some(t.8)),
            None => A::resolves(tm, None)
                || B::resolves(tm, None)
                || C::resolves(tm, None)
                || D::resolves(tm, None)
                || E::resolves(tm, None)
                || F::resolves(tm, None)
                || G::resolves(tm, None)
                || H::resolves(tm, None)
                || I::resolves(tm, None),
        }
    }

    fn retrieve_from_map(tm: &TypeMap) -> (found: Option<Self>) {
        let a = match A::retrieve_from_map(tm) {
            Some(v) => v,
            None => {
                return None;
            },
        };
        let b = match B::retrieve_from_map(tm) {
            Some(v) => v,
            None => {
                return None;
            },
        };
        let c = match C::retrieve_from_map(tm) {
            Some(v) => v,
            None => {
                return None;
            },
        };
        let d = match D::retrieve_from_map(tm) {
            Some(v) => v,
            None => {
                return None;
            },
        };
        let e = match E::retrieve_from_map(tm) {
            Some(v) => v,
            None => {
                return None;
            },
        };
        let f = match F::retrieve_from_map(tm) {
            Some(v) => v,
            None => {
                return None;
            },
        };
        let g = match G::retrieve_from_map(tm) {
            Some(v) => v,
            None => {
                return None;
            },
        };
        let h = match H::retrieve_from_map(tm) {
            Some(v) => v,
            None => {
                return None;
            },
        };
        let i = match I::retrieve_from_map(tm) {
            Some(v) => v,
            None => {
                return None;
            },
        };
        Some((a, b, c, d, e, f, g, h, i))
    }
}

/// A tuple of ten resolves when each of its elements does, and fails when
/// one of them fails.
impl<A: FromTypeMap, B: FromTypeMap, C: FromTypeMap, D: FromTypeMap, E: FromTypeMap, F: FromTypeMap, G: FromTypeMap, H: FromTypeMap, I: FromTypeMap, J: FromTypeMap> FromTypeMap for (A, B, C, D, E, F, G, H, I, J) {
    open spec fn resolves(tm: &TypeMap, found: Option<Self>) -> bool {
        match found {
            Some(t) => A::resolves(tm, Some(t.0))
                && B::resolves(tm, Some(t.1))
                && C::resolves(tm, Some(t.2))
                && D::resolves(tm, Some(t.3))
                && E::resolves(tm, Some(t.4))
                && F::resolves(tm, Some(t.5))
                && G::resolves(tm, Some(t.6))
                && H::resolves(tm, Some(t.7))
                && I::resolves(tm, Some(t.8))
                && J::resolves(tm, Some(t.9)),
            None => A::resolves(tm, None)
                || B::resolves(tm, None)
                || C::resolves(tm, None)
                || D::resolves(tm, None)
                || E::resolves(tm, None)
                || F::resolves(tm, None)
                || G::resolves(tm, None)
                || H::resolves(tm, None)
                || I::resolves(tm, None)
                || J::resolves(tm, None),
        }
    }

    fn retrieve_from_map(tm: &TypeMap) -> (found: Option<Self>) {
        let a = match A::retrieve_from_map(tm) {
            Some(v) => v,
            None => {
                return None;
            },
        };
        let b = match B::retrieve_from_map(tm) {
            Some(v) => v,
            None => {
                return None;
            },
        };
        let c = match C::retrieve_from_map(tm) {
            Some(v) => v,
            None => {
                return None;
            },
        };
        let d = match D::retrieve_from_map(tm) {
            Some(v) => v,
            None => {
                return None;
            },
        };
        let e = match E::retrieve_from_map(tm) {
            Some(v) => v,
            None => {
                return None;
            },
        };
        let f = match F::retrieve_from_map(tm) {
            Some(v) => v,
            None => {
                return None;
            },
        };
        let g = match G::retrieve_from_map(tm) {
            Some(v) => v,
            None => {
                return None;
            },
        };
        let h = match H::retrieve_from_map(tm) {
            Some(v) => v,
            None => {
                return None;
            },
        };
        let i = match I::retrieve_from_map(tm) {
            Some(v) => v,
            None => {
                return None;
            },
        };
        let j = match J::retrieve_from_map(tm) {
            Some(v) => v,
            None => {
                return None;
            },
        };
        Some((a, b, c, d, e, f, g, h, i, j))
    }
}

/// A tuple of eleven resolves when each of its elements does, and fails when
/// one of them fails.
impl<A: FromTypeMap, B: FromTypeMap, C: FromTypeMap, D: FromTypeMap, E: FromTypeMap, F: FromTypeMap, G: FromTypeMap, H: FromTypeMap, I: FromTypeMap, J: FromTypeMap, K: FromTypeMap> FromTypeMap for (A, B, C, D, E, F, G, H, I, J, K) {
    open spec fn resolves(tm: &TypeMap, found: Option<Self>) -> bool {
        match found {
            Some(t) => A::resolves(tm, Some(t.0))
                && B::resolves(tm, Some(t.1))
                && C::resolves(tm, Some(t.2))
                && D::resolves(tm, Some(t.3))
                && E::resolves(tm, Some(t.4))
                && F::resolves(tm, Some(t.5))
                && G::resolves(tm, Some(t.6))
                && H::resolves(tm, Some(t.7))
                && I::resolves(tm, Some(t.8))
                && J::resolves(tm, Some(t.9))
                && K::resolves(tm, Some(t.10)),
            None => A::resolves(tm, None)
                || B::resolves(tm, None)
                || C::resolves(tm, None)
                || D::resolves(tm, None)
                || E::resolves(tm, None)
                || F::resolves(tm, None)
                || G::resolves(tm, None)
                || H::resolves(tm, None)
                || I::resolves(tm, None)
                || J::resolves(tm, None)
                || K::resolves(tm, None),
        }
    }

    fn retrieve_from_map(tm: &TypeMap) -> (found: Option<Self>) {
        let a = match A::retrieve_from_map(tm) {
            Some(v) => v,
            None => {
                return None;
            },
        };
        let b = match B::retrieve_from_map(tm) {
            Some(v) => v,
            None => {
                return None;
            },
        };
        let c = match C::retrieve_from_map(tm) {
            Some(v) => v,
            None => {
                return None;
            },
        };
        let d = match D::retrieve_from_map(tm) {
            Some(v) => v,
            None => {
                return None;
            },
        };
        let e = match E::retrieve_from_map(tm) {
            Some(v) => v,
            None => {
                return None;
            },
        };
        let f = match F::retrieve_from_map(tm) {
            Some(v) => v,
            None => {
                return None;
            },
        };
        let g = match G::retrieve_from_map(tm) {
            Some(v) => v,
            None => {
                return None;
            },
        };
        let h = match H::retrieve_from_map(tm) {
            Some(v) => v,
            None => {
                return None;
            },
        };
        let i = match I::retrieve_from_map(tm) {
            Some(v) => v,
            None => {
                return None;
            },
        };
        let j = match J::retrieve_from_map(tm) {
            Some(v) => v,
            None => {
                return None;
            },
        };
        let k = match K::retrieve_from_map(tm) {
            Some(v) => v,
            None => {
                return None;
            },
        };
        Some((a, b, c, d, e, f, g, h, i, j, k))
    }
}

/// A tuple of twelve resolves when each of its elements does, and fails when
/// one of them fails.
impl<A: FromTypeMap, B: FromTypeMap, C: FromTypeMap, D: FromTypeMap, E: FromTypeMap, F: FromTypeMap, G: FromTypeMap, H: FromTypeMap, I: FromTypeMap, J: FromTypeMap, K: FromTypeMap, L: FromTypeMap> FromTypeMap for (A, B, C, D, E, F, G, H, I, J, K, L) {
    open spec fn resolves(tm: &TypeMap, found: Option<Self>) -> bool {
        match found {
            Some(t) => A::resolves(tm, Some(t.0))
                && B::resolves(tm, Some(t.1))
                && C::resolves(tm, Some(t.2))
                && D::resolves(tm, Some(t.3))
                && E::resolves(tm, Some(t.4))
                && F::resolves(tm, Some(t.5))
                && G::resolves(tm, Some(t.6))
                && H::resolves(tm, Some(t.7))
                && I::resolves(tm, Some(t.8))
                && J::resolves(tm, Some(t.9))
                && K::resolves(tm, Some(t.10))
                && L::resolves(tm, Some(t.11)),
            None => A::resolves(tm, None)
                || B::resolves(tm, None)
                || C::resolves(tm, None)
                || D::resolves(tm, None)
                || E::resolves(tm, None)
                || F::resolves(tm, None)
                || G::resolves(tm, None)
                || H::resolves(tm, None)
                || I::resolves(tm, None)
                || J::resolves(tm, None)
                || K::resolves(tm, None)
                || L::resolves(tm, None),
        }
    }

    fn retrieve_from_map(tm: &TypeMap) -> (found: Option<Self>) {
        let a = match A::retrieve_from_map(tm) {
            Some(v) => v,
            None => {
                return None;
            },
        };
        let b = match B::retrieve_from_map(tm) {
            Some(v) => v,
            None => {
                return None;
            },
        };
        let c = match C::retrieve_from_map(tm) {
            Some(v) => v,
            None => {
                return None;
            },
        };
        let d = match D::retrieve_from_map(tm) {
            Some(v) => v,
            None => {
                return None;
            },
        };
        let e = match E::retrieve_from_map(tm) {
            Some(v) => v,
            None => {
                return None;
            },
        };
        let f = match F::retrieve_from_map(tm) {
            Some(v) => v,
            None => {
                return None;
            },
        };
        let g = match G::retrieve_from_map(tm) {
            Some(v) => v,
            None => {
                return None;
            },
        };
        let h = match H::retrieve_from_map(tm) {
            Some(v) => v,
            None => {
                return None;
            },
        };
        let i = match I::retrieve_from_map(tm) {
            Some(v) => v,
            None => {
                return None;
            },
        };
        let j = match J::retrieve_from_map(tm) {
            Some(v) => v,
            None => {
                return None;
            },
        };
        let k = match K::retrieve_from_map(tm) {
            Some(v) => v,
            None => {
                return None;
            },
        };
        let l = match L::retrieve_from_map(tm) {
            Some(v) => v,
            None => {
                return None;
            },
        };
        Some((a, b, c, d, e, f, g, h, i, j, k, l))
    }
}

/// A tuple of thirteen resolves when each of its elements does, and fails when
/// one of them fails.
impl<A: FromTypeMap, B: FromTypeMap, C: FromTypeMap, D: FromTypeMap, E: FromTypeMap, F: FromTypeMap, G: FromTypeMap, H: FromTypeMap, I: FromTypeMap, J: FromTypeMap, K: FromTypeMap, L: FromTypeMap, M: FromTypeMap> FromTypeMap for (A, B, C, D, E, F, G, H, I, J, K, L, M) {
    open spec fn resolves(tm: &TypeMap, found: Option<Self>) -> bool {
        match found {
            Some(t) => A::resolves(tm, Some(t.0))
                && B::resolves(tm, Some(t.1))
                && C::resolves(tm, Some(t.2))
                && D::resolves(tm, Some(t.3))
                && E::resolves(tm, Some(t.4))
                && F::resolves(tm, Some(t.5))
                && G::resolves(tm, Some(t.6))
                && H::resolves(tm, Some(t.7))
                && I::resolves(tm, Some(t.8))
                && J::resolves(tm, Some(t.9))
                && K::resolves(tm, Some(t.10))
                && L::resolves(tm, Some(t.11))
                && M::resolves(tm, Some(t.12)),
            None => A::resolves(tm, None)
                || B::resolves(tm, None)
                || C::resolves(tm, None)
                || D::resolves(tm, None)
                || E::resolves(tm, None)
                || F::resolves(tm, None)
                || G::resolves(tm, None)
                || H::resolves(tm, None)
                || I::resolves(tm, None)
                || J::resolves(tm, None)
                || K::resolves(tm, None)
                || L::resolves(tm, None)
                || M::resolves(tm, None),
        }
    }

    fn retrieve_from_map(tm: &TypeMap) -> (found: Option<Self>) {
        let a = match A::retrieve_from_map(tm) {
            Some(v) => v,
            None => {
                return None;
            },
        };
        let b = match B::retrieve_from_map(tm) {
            Some(v) => v,
            None => {
                return None;
            },
        };
        let c = match C::retrieve_from_map(tm) {
            Some(v) => v,
            None => {
                return None;
            },
        };
        let d = match D::retrieve_from_map(tm) {
            Some(v) => v,
            None => {
                return None;
            },
        };
        let e = match E::retrieve_from_map(tm) {
            Some(v) => v,
            None => {
                return None;
            },
        };
        let f = match F::retrieve_from_map(tm) {
            Some(v) => v,
            None => {
                return None;
            },
        };
        let g = match G::retrieve_from_map(tm) {
            Some(v) => v,
            None => {
                return None;
            },
        };
        let h = match H::retrieve_from_map(tm) {
            Some(v) => v,
            None => {
                return None;
            },
        };
        let i = match I::retrieve_from_map(tm) {
            Some(v) => v,
            None => {
                return None;
            },
        };
        let j = match J::retrieve_from_map(tm) {
            Some(v) => v,
            None => {
                return None;
            },
        };
        let k = match K::retrieve_from_map(tm) {
            Some(v) => v,
            None => {
                return None;
            },
        };
        let l = match L::retrieve_from_map(tm) {
            Some(v) => v,
            None => {
                return None;
            },
        };
        let m = match M::retrieve_from_map(tm) {
            Some(v) => v,
            None => {
                return None;
            },
        };
        Some((a, b, c, d, e, f, g, h, i, j, k, l, m))
    }
}

/// A tuple of fourteen resolves when each of its elements does, and fails when
/// one of them fails.
impl<A: FromTypeMap, B: FromTypeMap, C: FromTypeMap, D: FromTypeMap, E: FromTypeMap, F: FromTypeMap, G: FromTypeMap, H: FromTypeMap, I: FromTypeMap, J: FromTypeMap, K: FromTypeMap, L: FromTypeMap, M: FromTypeMap, N: FromTypeMap> FromTypeMap for (A, B, C, D, E, F, G, H, I, J, K, L, M, N) {
    open spec fn resolves(tm: &TypeMap, found: Option<Self>) -> bool {
        match found {
            Some(t) => A::resolves(tm, Some(t.0))
                && B::resolves(tm, Some(t.1))
                && C::resolves(tm, Some(t.2))
                && D::resolves(tm, Some(t.3))
                && E::resolves(tm, Some(t.4))
                && F::resolves(tm, Some(t.5))
                && G::resolves(tm, Some(t.6))
                && H::resolves(tm, Some(t.7))
                && I::resolves(tm, Some(t.8))
                && J::resolves(tm, Some(t.9))
                && K::resolves(tm, Some(t.10))
                && L::resolves(tm, Some(t.11))
                && M::resolves(tm, Some(t.12))
                && N::resolves(tm, Some(t.13)),
            None => A::resolves(tm, None)
                || B::resolves(tm, None)
                || C::resolves(tm, None)
                || D::resolves(tm, None)
                || E::resolves(tm, None)
                || F::resolves(tm, None)
                || G::resolves(tm, None)
                || H::resolves(tm, None)
                || I::resolves(tm, None)
                || J::resolves(tm, None)
                || K::resolves(tm, None)
                || L::resolves(tm, None)
                || M::resolves(tm, None)
                || N::resolves(tm, None),
        }
    }

    fn retrieve_from_map(tm: &TypeMap) -> (found: Option<Self>) {
        let a = match A::retrieve_from_map(tm) {
            Some(v) => v,
            None => {
                return None;
            },
        };
        let b = match B::retrieve_from_map(tm) {
            Some(v) => v,
            None => {
                return None;
            },
        };
        let c = match C::retrieve_from_map(tm) {
            Some(v) => v,
            None => {
                return None;
            },
        };
        let d = match D::retrieve_from_map(tm) {
            Some(v) => v,
            None => {
                return None;
            },
        };
        let e = match E::retrieve_from_map(tm) {
            Some(v) => v,
            None => {
                return None;
            },
        };
        let f = match F::retrieve_from_map(tm) {
            Some(v) => v,
            None => {
                return None;
            },
        };
        let g = match G::retrieve_from_map(tm) {
            Some(v) => v,
            None => {
                return None;
            },
        };
        let h = match H::retrieve_from_map(tm) {
            Some(v) => v,
            None => {
                return None;
            },
        };
        let i = match I::retrieve_from_map(tm) {
            Some(v) => v,
            None => {
                return None;
            },
        };
        let j = match J::retrieve_from_map(tm) {
            Some(v) => v,
            None => {
                return None;
            },
        };
        let k = match K::retrieve_from_map(tm) {
            Some(v) => v,
            None => {
                return None;
            },
        };
        let l = match L::retrieve_from_map(tm) {
            Some(v) => v,
            None => {
                return None;
            },
        };
        let m = match M::retrieve_from_map(tm) {
            Some(v) => v,
            None => {
                return None;
            },
        };
        let n = match N::retrieve_from_map(tm) {
            Some(v) => v,
            None => {
                return None;
            },
        };
        Some((a, b, c, d, e, f, g, h, i, j, k, l, m, n))
    }
}

/// A tuple of fifteen resolves when each of its elements does, and fails when
/// one of them fails.
impl<A: FromTypeMap, B: FromTypeMap, C: FromTypeMap, D: FromTypeMap, E: FromTypeMap, F: FromTypeMap, G: FromTypeMap, H: FromTypeMap, I: FromTypeMap, J: FromTypeMap, K: FromTypeMap, L: FromTypeMap, M: FromTypeMap, N: FromTypeMap, O: FromTypeMap> FromTypeMap for (A, B, C, D, E, F, G, H, I, J, K, L, M, N, O) {
    open spec fn resolves(tm: &TypeMap, found: Option<Self>) -> bool {
        match found {
            Some(t) => A::resolves(tm, Some(t.0))
                && B::resolves(tm, Some(t.1))
                && C::resolves(tm, Some(t.2))
                && D::resolves(tm, Some(t.3))
                && E::resolves(tm, Some(t.4))
                && F::resolves(tm, Some(t.5))
                && G::resolves(tm, Some(t.6))
                && H::resolves(tm, Some(t.7))
                && I::resolves(tm, Some(t.8))
                && J::resolves(tm, Some(t.9))
                && K::resolves(tm, Some(t.10))
                && L::resolves(tm, Some(t.11))
                && M::resolves(tm, Some(t.12))
                && N::resolves(tm, Some(t.13))
                && O::resolves(tm, Some(t.14)),
            None => A::resolves(tm, None)
                || B::resolves(tm, None)
                || C::resolves(tm, None)
                || D::resolves(tm, None)
                || E::resolves(tm, None)
                || F::resolves(tm, None)
                || G::resolves(tm, None)
                || H::resolves(tm, None)
                || I::resolves(tm, None)
                || J::resolves(tm, None)
                || K::resolves(tm, None)
                || L::resolves(tm, None)
                || M::resolves(tm, None)
                || N::resolves(tm, None)
                || O::resolves(tm, None),
        }
    }

    fn retrieve_from_map(tm: &TypeMap) -> (found: Option<Self>) {
        let a = match A::retrieve_from_map(tm) {
            Some(v) => v,
            None => {
                return None;
            },
        };
        let b = match B::retrieve_from_map(tm) {
            Some(v) => v,
            None => {
                return None;
            },
        };
        let c = match C::retrieve_from_map(tm) {
            Some(v) => v,
            None => {
                return None;
            },
        };
        let d = match D::retrieve_from_map(tm) {
            Some(v) => v,
            None => {
                return None;
            },
        };
        let e = match E::retrieve_from_map(tm) {
            Some(v) => v,
            None => {
                return None;
            },
        };
        let f = match F::retrieve_from_map(tm) {
            Some(v) => v,
            None => {
                return None;
            },
        };
        let g = match G::retrieve_from_map(tm) {
            Some(v) => v,
            None => {
                return None;
            },
        };
        let h = match H::retrieve_from_map(tm) {
            Some(v) => v,
            None => {
                return None;
            },
        };
        let i = match I::retrieve_from_map(tm) {
            Some(v) => v,
            None => {
                return None;
            },
        };
        let j = match J::retrieve_from_map(tm) {
            Some(v) => v,
            None => {
                return None;
            },
        };
        let k = match K::retrieve_from_map(tm) {
            Some(v) => v,
            None => {
                return None;
            },
        };
        let l = match L::retrieve_from_map(tm) {
            Some(v) => v,
            None => {
                return None;
            },
        };
        let m = match M::retrieve_from_map(tm) {
            Some(v) => v,
            None => {
                return None;
            },
        };
        let n = match N::retrieve_from_map(tm) {
            Some(v) => v,
            None => {
                return None;
            },
        };
        let o = match O::retrieve_from_map(tm) {
            Some(v) => v,
            None => {
                return None;
            },
        };
        Some((a, b, c, d, e, f, g, h, i, j, k, l, m, n, o))
    }
}

/// A tuple of sixteen resolves when each of its elements does, and fails when
/// one of them fails.
impl<A: FromTypeMap, B: FromTypeMap, C: FromTypeMap, D: FromTypeMap, E: FromTypeMap, F: FromTypeMap, G: FromTypeMap, H: FromTypeMap, I: FromTypeMap, J: FromTypeMap, K: FromTypeMap, L: FromTypeMap, M: FromTypeMap, N: FromTypeMap, O: FromTypeMap, P: FromTypeMap> FromTypeMap for (A, B, C, D, E, F, G, H, I, J, K, L, M, N, O, P) {
    open spec fn resolves(tm: &TypeMap, found: Option<Self>) -> bool {
        match found {
            Some(t) => A::resolves(tm, Some(t.0))
                && B::resolves(tm, Some(t.1))
                && C::resolves(tm, Some(t.2))
                && D::resolves(tm, Some(t.3))
                && E::resolves(tm, Some(t.4))
                && F::resolves(tm, Some(t.5))
                && G::resolves(tm, Some(t.6))
                && H::resolves(tm, Some(t.7))
                && I::resolves(tm, Some(t.8))
                && J::resolves(tm, Some(t.9))
                && K::resolves(tm, Some(t.10))
                && L::resolves(tm, Some(t.11))
                && M::resolves(tm, Some(t.12))
                && N::resolves(tm, Some(t.13))
                && O::resolves(tm, Some(t.14))
                && P::resolves(tm, Some(t.15)),
            None => A::resolves(tm, None)
                || B::resolves(tm, None)
                || C::resolves(tm, None)
                || D::resolves(tm, None)
                || E::resolves(tm, None)
                || F::resolves(tm, None)
                || G::resolves(tm, None)
                || H::resolves(tm, None)
                || I::resolves(tm, None)
                || J::resolves(tm, None)
                || K::resolves(tm, None)
                || L::resolves(tm, None)
                || M::resolves(tm, None)
                || N::resolves(tm, None)
                || O::resolves(tm, None)
                || P::resolves(tm, None),
        }
    }

    fn retrieve_from_map(tm: &TypeMap) -> (found: Option<Self>) {
        let a = match A::retrieve_from_map(tm) {
            Some(v) => v,
            None => {
                return None;
            },
        };
        let b = match B::retrieve_from_map(tm) {
            Some(v) => v,
            None => {
                return None;
            },
        };
        let c = match C::retrieve_from_map(tm) {
            Some(v) => v,
            None => {
                return None;
            },
        };
        let d = match D::retrieve_from_map(tm) {
            Some(v) => v,
            None => {
                return None;
            },
        };
        let e = match E::retrieve_from_map(tm) {
            Some(v) => v,
            None => {
                return None;
            },
        };
        let f = match F::retrieve_from_map(tm) {
            Some(v) => v,
            None => {
                return None;
            },
        };
        let g = match G::retrieve_from_map(tm) {
            Some(v) => v,
            None => {
                return None;
            },
        };
        let h = match H::retrieve_from_map(tm) {
            Some(v) => v,
            None => {
                return None;
            },
        };
        let i = match I::retrieve_from_map(tm) {
            Some(v) => v,
            None => {
                return None;
            },
        };
        let j = match J::retrieve_from_map(tm) {
            Some(v) => v,
            None => {
                return None;
            },
        };
        let k = match K::retrieve_from_map(tm) {
            Some(v) => v,
            None => {
                return None;
            },
        };
        let l = match L::retrieve_from_map(tm) {
            Some(v) => v,
            None => {
                return None;
            },
        };
        let m = match M::retrieve_from_map(tm) {
            Some(v) => v,
            None => {
                return None;
            },
        };
        let n = match N::retrieve_from_map(tm) {
            Some(v) => v,
            None => {
                return None;
            },
        };
        let o = match O::retrieve_from_map(tm) {
            Some(v) => v,
            None => {
                return None;
            },
        };
        let p = match P::retrieve_from_map(tm) {
            Some(v) => v,
            None => {
                return None;
            },
        };
        Some((a, b, c, d, e, f, g, h, i, j, k, l, m, n, o, p))
    }
}

} // verus!
