//! The registry: the one place through which producers submit events and
//! find the calculator for what they are about to meter.

use crate::calc::WriteCalculator;
use crate::collect::Collect;
use crate::data::{MeterRecord, TrafficSource};
use crate::table::{new_table, share, slots_filled, table_get, table_insert, CalculatorTable};
use std::marker::PhantomData;
use std::sync::Arc;
use vstd::prelude::*;

verus! {

/// What the table stores for item type `T`: the calculator, under a type
/// that names `T`, so that each item type has a slot of its own even where
/// one calculator serves several.
struct Slot<T, H> {
    calculator: Arc<H>,
    item: PhantomData<T>,
}

/// Routes events to the sink that is installed, if one is, and keeps the
/// calculators, one per item type. It holds no events itself.
///
/// `C` is the sink and `H` the calculator; a calculator that serves several
/// item types implements `WriteCalculator` for each.
pub struct Registry<C, H> {
    collector: Option<C>,
    calculator: CalculatorTable,
    calculators: PhantomData<H>,
}

impl<C: Collect, H: Send + Sync + 'static> Registry<C, H> {
    /// The sink that is installed.
    pub closed spec fn sink(&self) -> Option<C> {
        self.collector
    }

    /// The calculators that are registered.
    pub closed spec fn table(&self) -> CalculatorTable {
        self.calculator
    }

    /// The number of item types that have a calculator.
    pub open spec fn calculators(&self) -> nat {
        slots_filled(self.table())
    }

    /// Whether `after` is this registry once the write `record` has been
    /// submitted: told to the sink if there is one, dropped if there is none.
    pub open spec fn wrote(&self, record: MeterRecord, after: &Self) -> bool {
        match self.sink() {
            Some(sink) => after.sink() is Some && sink.write_filed(record, &after.sink()->0)
                && after.table() == self.table(),
            None => *after == *self,
        }
    }

    /// Whether `after` is this registry once the read `record` has been
    /// submitted: told to the sink if there is one, dropped if there is none.
    pub open spec fn read(&self, record: MeterRecord, after: &Self) -> bool {
        match self.sink() {
            Some(sink) => after.sink() is Some && sink.read_filed(record, &after.sink()->0)
                && after.table() == self.table(),
            None => *after == *self,
        }
    }

    /// A registry without a sink and without calculators.
    pub fn new() -> (registry: Self)
        ensures
            registry.sink() is None,
            registry.calculators() == 0,
    {
        Self { collector: None, calculator: new_table(), calculators: PhantomData }
    }

    /// Installs `collector` as the one sink, in place of the sink before it.
    pub fn set_collector(&mut self, collector: C)
        ensures
            final(self).sink() == Some(collector),
            final(self).table() == old(self).table(),
    {
        self.collector = Some(collector);
    }

    /// The sink that is installed.
    pub fn collector(&self) -> (sink: Option<&C>)
        ensures
            sink is Some <==> self.sink() is Some,
            sink is Some ==> *sink->0 == self.sink()->0,
    {
        self.collector.as_ref()
    }

    /// The sink that is installed, for draining it.
    pub fn collector_mut(&mut self) -> (sink: Option<&mut C>)
        ensures
            sink is Some <==> old(self).sink() is Some,
            sink is Some ==> *sink->0 == old(self).sink()->0 && final(self).sink() == Some(
                *final(sink->0),
            ),
            sink is None ==> *final(self) == *old(self),
    {
        self.collector.as_mut()
    }

    /// Makes `calculator` the calculator for items of type `T`, in place of
    /// the one before it. At most one item type more has a calculator then,
    /// and the sink is not touched.
    pub fn register_calculator<T: Send + Sync + 'static>(&mut self, calculator: Arc<H>) where
        H: WriteCalculator<T>,

        ensures
            final(self).sink() == old(self).sink(),
            old(self).calculators() <= final(self).calculators() <= old(self).calculators() + 1,
            final(self).calculators() >= 1,
    {
        let _ = table_insert(&mut self.calculator, Slot::<T, H> { calculator, item: PhantomData });
    }

    /// The calculator for items of type `T`; `None` where none is registered,
    /// which is no error: the caller then leaves the item unmetered.
    pub fn get_calculator<T: Send + Sync + 'static>(&self) -> (found: Option<Arc<H>>) where
        H: WriteCalculator<T>,

        ensures
            self.calculators() == 0 ==> found is None,
    {
        Self::handed_out(match table_get::<Slot<T, H>>(&self.calculator) {
            Some(slot) => Some(&slot.calculator),
            None => None,
        })
    }

    /// Hands a write event to the sink. Without a sink the event is dropped
    /// and nothing changes.
    pub fn record_write(&mut self, record: MeterRecord)
        ensures
            old(self).wrote(record, final(self)),
    {
        match self.collector.as_mut() {
            Some(collector) => collector.on_write(record),
            None => {},
        }
    }

    /// Hands a read event to the sink. Without a sink the event is dropped
    /// and nothing changes.
    pub fn record_read(&mut self, record: MeterRecord)
        ensures
            old(self).read(record, final(self)),
    {
        match self.collector.as_mut() {
            Some(collector) => collector.on_read(record),
            None => {},
        }
    }

    /// Meters one written item with `calculator` and submits the event;
    /// without a calculator the item goes unmetered. Returns the magnitude,
    /// zero where nothing was metered.
    pub fn write_with<T>(
        &mut self,
        calculator: Option<Arc<H>>,
        catalog: String,
        schema: String,
        item: &T,
        source: TrafficSource,
    ) -> (value: u64) where H: WriteCalculator<T>
        ensures
            calculator is None ==> value == 0 && *final(self) == *old(self),
            calculator is Some ==> value == calculator->0.cost(item) && old(self).wrote(
                (MeterRecord { catalog, schema, value, source }),
                final(self),
            ),
    {
        match calculator {
            Some(calculator) => {
                let value = calculator.calc(item);
                self.record_write(MeterRecord::new(catalog, schema, value, source));
                value
            },
            None => 0,
        }
    }

    /// Meters one read item with `calculator` and submits the event; without
    /// a calculator the item goes unmetered. Returns the magnitude, zero
    /// where nothing was metered.
    pub fn read_with<T>(
        &mut self,
        calculator: Option<Arc<H>>,
        catalog: String,
        schema: String,
        item: &T,
        source: TrafficSource,
    ) -> (value: u64) where H: WriteCalculator<T>
        ensures
            calculator is None ==> value == 0 && *final(self) == *old(self),
            calculator is Some ==> value == calculator->0.cost(item) && old(self).read(
                (MeterRecord { catalog, schema, value, source }),
                final(self),
            ),
    {
        match calculator {
            Some(calculator) => {
                let value = calculator.calc(item);
                self.record_read(MeterRecord::new(catalog, schema, value, source));
                value
            },
            None => 0,
        }
    }

    /// Meters one written item with the calculator registered for its type,
    /// if there is one, and submits the event.
    pub fn write_meter<T: Send + Sync + 'static>(
        &mut self,
        catalog: String,
        schema: String,
        item: &T,
        source: TrafficSource,
    ) -> (value: u64) where H: WriteCalculator<T>
        ensures
            old(self).calculators() == 0 ==> value == 0 && *final(self) == *old(self),
            (value == 0 && *final(self) == *old(self)) || exists|calculator: Arc<H>|
                value == calculator.cost(item) && old(self).wrote(
                    (MeterRecord { catalog, schema, value, source }),
                    final(self),
                ),
    {
        let calculator = self.get_calculator::<T>();
        self.write_with(calculator, catalog, schema, item, source)
    }

    /// Meters one read item with the calculator registered for its type, if
    /// there is one, and submits the event.
    pub fn read_meter<T: Send + Sync + 'static>(
        &mut self,
        catalog: String,
        schema: String,
        item: &T,
        source: TrafficSource,
    ) -> (value: u64) where H: WriteCalculator<T>
        ensures
            old(self).calculators() == 0 ==> value == 0 && *final(self) == *old(self),
            (value == 0 && *final(self) == *old(self)) || exists|calculator: Arc<H>|
                value == calculator.cost(item) && old(self).read(
                    (MeterRecord { catalog, schema, value, source }),
                    final(self),
                ),
    {
        let calculator = self.get_calculator::<T>();
        self.read_with(calculator, catalog, schema, item, source)
    }

    /// What a lookup hands out for what the table gave it: another handle to
    /// the calculator that the slot holds, and `None` for an empty slot.
    pub fn handed_out(stored: Option<&Arc<H>>) -> (found: Option<Arc<H>>)
        ensures
            found is Some <==> stored is Some,
            found is Some ==> found->0 == *stored->0,
    {
        match stored {
            Some(calculator) => Some(share(calculator)),
            None => None,
        }
    }
}

impl<C: Collect, H: Send + Sync + 'static> Default for Registry<C, H> {
    fn default() -> (registry: Self)
        ensures
            registry.sink() is None,
            registry.calculators() == 0,
    {
        Registry::new()
    }
}

} // verus!
