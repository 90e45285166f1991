//! The processor interface the geometry walker drives, and a simple
//! processor that records every callback as an [`Event`].
//!
//! The walker is polymorphic over any consumer: per-kind begin/end pairs,
//! a dimensionality query, and two coordinate-emission operations (a
//! simplified x/y form and a full form with the optional ordinates). A
//! callback may fail; the walker then aborts immediately and propagates
//! the error, making no further calls for that geometry.

use vstd::prelude::*;

use crate::error::GeoError;
use crate::types::{CoordDimensions, Event};

verus! {

/// An abstract consumer of geometry structure.
///
/// A processor's abstract state is the sequence of events it has accepted
/// (`events`), together with its fixed dimensionality configuration
/// (`dims_z`, `dims_m`) and whether its callbacks can fail at all
/// (`infallible`). Every callback, on success, appends exactly its own
/// event; configuration never changes; and a processor that declares
/// itself infallible never fails.
pub trait GeomProcessor {
    /// Whether this processor tracks Z ordinates.
    spec fn dims_z(&self) -> bool;

    /// Whether this processor tracks M ordinates.
    spec fn dims_m(&self) -> bool;

    /// Whether this processor's callbacks are guaranteed to succeed.
    spec fn infallible(&self) -> bool;

    /// The events accepted so far.
    spec fn events(&self) -> Seq<Event>;

    /// The dimensions this processor tracks.
    fn dimensions(&self) -> (d: CoordDimensions)
        ensures
            d.z == self.dims_z(),
            d.m == self.dims_m(),
    ;

    fn point_begin(&mut self, idx: usize) -> (r: Result<(), GeoError>)
        ensures
            final(self).dims_z() == old(self).dims_z(),
            final(self).dims_m() == old(self).dims_m(),
            final(self).infallible() == old(self).infallible(),
            old(self).infallible() ==> r is Ok,
            r is Ok ==> final(self).events() == old(self).events().push(
                Event::PointBegin { idx },
            ),
    ;

    fn point_end(&mut self, idx: usize) -> (r: Result<(), GeoError>)
        ensures
            final(self).dims_z() == old(self).dims_z(),
            final(self).dims_m() == old(self).dims_m(),
            final(self).infallible() == old(self).infallible(),
            old(self).infallible() ==> r is Ok,
            r is Ok ==> final(self).events() == old(self).events().push(Event::PointEnd { idx }),
    ;

    fn multipoint_begin(&mut self, n: usize, idx: usize) -> (r: Result<(), GeoError>)
        ensures
            final(self).dims_z() == old(self).dims_z(),
            final(self).dims_m() == old(self).dims_m(),
            final(self).infallible() == old(self).infallible(),
            old(self).infallible() ==> r is Ok,
            r is Ok ==> final(self).events() == old(self).events().push(
                Event::MultiPointBegin { n, idx },
            ),
    ;

    fn multipoint_end(&mut self, idx: usize) -> (r: Result<(), GeoError>)
        ensures
            final(self).dims_z() == old(self).dims_z(),
            final(self).dims_m() == old(self).dims_m(),
            final(self).infallible() == old(self).infallible(),
            old(self).infallible() ==> r is Ok,
            r is Ok ==> final(self).events() == old(self).events().push(
                Event::MultiPointEnd { idx },
            ),
    ;

    fn linestring_begin(&mut self, tagged: bool, n: usize, idx: usize) -> (r: Result<(), GeoError>)
        ensures
            final(self).dims_z() == old(self).dims_z(),
            final(self).dims_m() == old(self).dims_m(),
            final(self).infallible() == old(self).infallible(),
            old(self).infallible() ==> r is Ok,
            r is Ok ==> final(self).events() == old(self).events().push(
                Event::LineStringBegin { tagged, n, idx },
            ),
    ;

    fn linestring_end(&mut self, tagged: bool, idx: usize) -> (r: Result<(), GeoError>)
        ensures
            final(self).dims_z() == old(self).dims_z(),
            final(self).dims_m() == old(self).dims_m(),
            final(self).infallible() == old(self).infallible(),
            old(self).infallible() ==> r is Ok,
            r is Ok ==> final(self).events() == old(self).events().push(
                Event::LineStringEnd { tagged, idx },
            ),
    ;

    fn multilinestring_begin(&mut self, n: usize, idx: usize) -> (r: Result<(), GeoError>)
        ensures
            final(self).dims_z() == old(self).dims_z(),
            final(self).dims_m() == old(self).dims_m(),
            final(self).infallible() == old(self).infallible(),
            old(self).infallible() ==> r is Ok,
            r is Ok ==> final(self).events() == old(self).events().push(
                Event::MultiLineStringBegin { n, idx },
            ),
    ;

    fn multilinestring_end(&mut self, idx: usize) -> (r: Result<(), GeoError>)
        ensures
            final(self).dims_z() == old(self).dims_z(),
            final(self).dims_m() == old(self).dims_m(),
            final(self).infallible() == old(self).infallible(),
            old(self).infallible() ==> r is Ok,
            r is Ok ==> final(self).events() == old(self).events().push(
                Event::MultiLineStringEnd { idx },
            ),
    ;

    fn polygon_begin(&mut self, tagged: bool, n: usize, idx: usize) -> (r: Result<(), GeoError>)
        ensures
            final(self).dims_z() == old(self).dims_z(),
            final(self).dims_m() == old(self).dims_m(),
            final(self).infallible() == old(self).infallible(),
            old(self).infallible() ==> r is Ok,
            r is Ok ==> final(self).events() == old(self).events().push(
                Event::PolygonBegin { tagged, n, idx },
            ),
    ;

    fn polygon_end(&mut self, tagged: bool, idx: usize) -> (r: Result<(), GeoError>)
        ensures
            final(self).dims_z() == old(self).dims_z(),
            final(self).dims_m() == old(self).dims_m(),
            final(self).infallible() == old(self).infallible(),
            old(self).infallible() ==> r is Ok,
            r is Ok ==> final(self).events() == old(self).events().push(
                Event::PolygonEnd { tagged, idx },
            ),
    ;

    fn multipolygon_begin(&mut self, n: usize, idx: usize) -> (r: Result<(), GeoError>)
        ensures
            final(self).dims_z() == old(self).dims_z(),
            final(self).dims_m() == old(self).dims_m(),
            final(self).infallible() == old(self).infallible(),
            old(self).infallible() ==> r is Ok,
            r is Ok ==> final(self).events() == old(self).events().push(
                Event::MultiPolygonBegin { n, idx },
            ),
    ;

    fn multipolygon_end(&mut self, idx: usize) -> (r: Result<(), GeoError>)
        ensures
            final(self).dims_z() == old(self).dims_z(),
            final(self).dims_m() == old(self).dims_m(),
            final(self).infallible() == old(self).infallible(),
            old(self).infallible() ==> r is Ok,
            r is Ok ==> final(self).events() == old(self).events().push(
                Event::MultiPolygonEnd { idx },
            ),
    ;

    fn geometrycollection_begin(&mut self, n: usize, idx: usize) -> (r: Result<(), GeoError>)
        ensures
            final(self).dims_z() == old(self).dims_z(),
            final(self).dims_m() == old(self).dims_m(),
            final(self).infallible() == old(self).infallible(),
            old(self).infallible() ==> r is Ok,
            r is Ok ==> final(self).events() == old(self).events().push(
                Event::GeometryCollectionBegin { n, idx },
            ),
    ;

    fn geometrycollection_end(&mut self, idx: usize) -> (r: Result<(), GeoError>)
        ensures
            final(self).dims_z() == old(self).dims_z(),
            final(self).dims_m() == old(self).dims_m(),
            final(self).infallible() == old(self).infallible(),
            old(self).infallible() ==> r is Ok,
            r is Ok ==> final(self).events() == old(self).events().push(
                Event::GeometryCollectionEnd { idx },
            ),
    ;

    /// The simplified two-dimensional coordinate form, for processors
    /// that track neither Z nor M. Values are IEEE-754 bit patterns.
    fn xy(&mut self, x: u64, y: u64, idx: usize) -> (r: Result<(), GeoError>)
        ensures
            final(self).dims_z() == old(self).dims_z(),
            final(self).dims_m() == old(self).dims_m(),
            final(self).infallible() == old(self).infallible(),
            old(self).infallible() ==> r is Ok,
            r is Ok ==> final(self).events() == old(self).events().push(Event::Xy { x, y, idx }),
    ;

    /// The full coordinate form, for dimension-aware processors. The two
    /// trailing slots are reserved for future ordinate kinds and the
    /// walker always passes them as absent.
    fn coordinate(
        &mut self,
        x: u64,
        y: u64,
        z: Option<u64>,
        m: Option<u64>,
        t: Option<u64>,
        tm: Option<u64>,
        idx: usize,
    ) -> (r: Result<(), GeoError>)
        ensures
            final(self).dims_z() == old(self).dims_z(),
            final(self).dims_m() == old(self).dims_m(),
            final(self).infallible() == old(self).infallible(),
            old(self).infallible() ==> r is Ok,
            r is Ok ==> final(self).events() == old(self).events().push(
                Event::Coordinate { x, y, z, m, t, tm, idx },
            ),
    ;
}

/// A processor that records every callback, in order, and never fails.
pub struct EventCollector {
    pub dims: CoordDimensions,
    pub collected: Vec<Event>,
}

impl EventCollector {
    /// An empty collector that tracks the given dimensions.
    pub fn new(dims: CoordDimensions) -> (c: EventCollector)
        ensures
            c.dims == dims,
            c.events() == Seq::<Event>::empty(),
            c.infallible(),
    {
        let c = EventCollector { dims, collected: Vec::new() };
        assert(c.collected@ =~= Seq::<Event>::empty());
        c
    }
}

impl GeomProcessor for EventCollector {
    open spec fn dims_z(&self) -> bool {
        self.dims.z
    }

    open spec fn dims_m(&self) -> bool {
        self.dims.m
    }

    open spec fn infallible(&self) -> bool {
        true
    }

    open spec fn events(&self) -> Seq<Event> {
        self.collected@
    }

    fn dimensions(&self) -> (d: CoordDimensions) {
        self.dims
    }

    fn point_begin(&mut self, idx: usize) -> (r: Result<(), GeoError>) {
        self.collected.push(Event::PointBegin { idx });
        Ok(())
    }

    fn point_end(&mut self, idx: usize) -> (r: Result<(), GeoError>) {
        self.collected.push(Event::PointEnd { idx });
        Ok(())
    }

    fn multipoint_begin(&mut self, n: usize, idx: usize) -> (r: Result<(), GeoError>) {
        self.collected.push(Event::MultiPointBegin { n, idx });
        Ok(())
    }

    fn multipoint_end(&mut self, idx: usize) -> (r: Result<(), GeoError>) {
        self.collected.push(Event::MultiPointEnd { idx });
        Ok(())
    }

    fn linestring_begin(&mut self, tagged: bool, n: usize, idx: usize) -> (r: Result<(
    ), GeoError>) {
        self.collected.push(Event::LineStringBegin { tagged, n, idx });
        Ok(())
    }

    fn linestring_end(&mut self, tagged: bool, idx: usize) -> (r: Result<(), GeoError>) {
        self.collected.push(Event::LineStringEnd { tagged, idx });
        Ok(())
    }

    fn multilinestring_begin(&mut self, n: usize, idx: usize) -> (r: Result<(), GeoError>) {
        self.collected.push(Event::MultiLineStringBegin { n, idx });
        Ok(())
    }

    fn multilinestring_end(&mut self, idx: usize) -> (r: Result<(), GeoError>) {
        self.collected.push(Event::MultiLineStringEnd { idx });
        Ok(())
    }

    fn polygon_begin(&mut self, tagged: bool, n: usize, idx: usize) -> (r: Result<(), GeoError>) {
        self.collected.push(Event::PolygonBegin { tagged, n, idx });
        Ok(())
    }

    fn polygon_end(&mut self, tagged: bool, idx: usize) -> (r: Result<(), GeoError>) {
        self.collected.push(Event::PolygonEnd { tagged, idx });
        Ok(())
    }

    fn multipolygon_begin(&mut self, n: usize, idx: usize) -> (r: Result<(), GeoError>) {
        self.collected.push(Event::MultiPolygonBegin { n, idx });
        Ok(())
    }

    fn multipolygon_end(&mut self, idx: usize) -> (r: Result<(), GeoError>) {
        self.collected.push(Event::MultiPolygonEnd { idx });
        Ok(())
    }

    fn geometrycollection_begin(&mut self, n: usize, idx: usize) -> (r: Result<(), GeoError>) {
        self.collected.push(Event::GeometryCollectionBegin { n, idx });
        Ok(())
    }

    fn geometrycollection_end(&mut self, idx: usize) -> (r: Result<(), GeoError>) {
        self.collected.push(Event::GeometryCollectionEnd { idx });
        Ok(())
    }

    fn xy(&mut self, x: u64, y: u64, idx: usize) -> (r: Result<(), GeoError>) {
        self.collected.push(Event::Xy { x, y, idx });
        Ok(())
    }

    fn coordinate(
        &mut self,
        x: u64,
        y: u64,
        z: Option<u64>,
        m: Option<u64>,
        t: Option<u64>,
        tm: Option<u64>,
        idx: usize,
    ) -> (r: Result<(), GeoError>) {
        self.collected.push(Event::Coordinate { x, y, z, m, t, tm, idx });
        Ok(())
    }
}

} // verus!
