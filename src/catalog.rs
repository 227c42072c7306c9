use vstd::prelude::*;

verus! {

/// A named car with its price.
pub struct Car {
    pub name: String,
    pub price: i32,
}

impl View for Car {
    type V = (Seq<char>, i32);

    open spec fn view(&self) -> (Seq<char>, i32) {
        (self.name@, self.price)
    }
}

/// The catalog: cars in a fixed order.
pub struct CarList {
    pub cars: Vec<Car>,
}

impl View for CarList {
    type V = Seq<(Seq<char>, i32)>;

    open spec fn view(&self) -> Seq<(Seq<char>, i32)> {
        self.cars@.map_values(|c: Car| c@)
    }
}

/// The cars that every catalog starts with, in order.
pub open spec fn seeded_cars() -> Seq<(Seq<char>, i32)> {
    seq![("porsche"@, 120000i32), ("ferrari"@, 340000i32), ("mazda"@, 32000i32)]
}

/// The first car in `cars` whose name is exactly `name`, if any.
pub open spec fn lookup(cars: Seq<(Seq<char>, i32)>, name: Seq<char>) -> Option<(Seq<char>, i32)>
    decreases cars.len(),
{
    if cars.len() == 0 {
        None
    } else if cars[0].0 == name {
        Some(cars[0])
    } else {
        lookup(cars.drop_first(), name)
    }
}

/// Why a lookup found no car.
#[derive(Debug, Clone, Copy, PartialEq, Eq, Structural)]
pub enum LookupError {
    /// No name was supplied.
    MissingName,
    /// A name was supplied and no car has it.
    NotFound,
}

impl LookupError {
    /// The human-readable text that reports this error.
    pub open spec fn text(self) -> Seq<char> {
        match self {
            LookupError::MissingName => "No car name provided"@,
            LookupError::NotFound => "No car found for the given name"@,
        }
    }

    /// Returns the human-readable text that reports this error.
    pub fn message(&self) -> (r: &'static str)
        ensures
            r@ == self.text(),
    {
        match self {
            LookupError::MissingName => "No car name provided",
            LookupError::NotFound => "No car found for the given name",
        }
    }
}

/// The outcome of a request that may or may not name a car: the first car
/// with that name, or the reason there is none.
pub open spec fn lookup_request(cars: Seq<(Seq<char>, i32)>, name: Option<Seq<char>>) -> Result<
    (Seq<char>, i32),
    LookupError,
> {
    match name {
        None => Err(LookupError::MissingName),
        Some(n) => match lookup(cars, n) {
            Some(c) => Ok(c),
            None => Err(LookupError::NotFound),
        },
    }
}

/// The name a request carries, as characters.
pub open spec fn requested_name(car_name: Option<&str>) -> Option<Seq<char>> {
    match car_name {
        Some(n) => Some(n@),
        None => None,
    }
}

impl CarList {
    /// Builds the catalog with its three seeded cars.
    pub fn new() -> (r: CarList)
        ensures
            r@ == seeded_cars(),
    {
        let mut cars: Vec<Car> = Vec::new();
        cars.push(Car { name: String::from_str("porsche"), price: 120_000 });
        cars.push(Car { name: String::from_str("ferrari"), price: 340_000 });
        cars.push(Car { name: String::from_str("mazda"), price: 32_000 });
        let r = CarList { cars };
        assert(r@ =~= seeded_cars());
        r
    }
}

/// Finds the first car of `car_list` named exactly `car_name`.
pub fn get_car_from_name<'a>(car_name: &'a str, car_list: &'a CarList) -> (r: Option<&'a Car>)
    ensures
        match r {
            Some(c) => lookup(car_list@, car_name@) == Some(c@),
            None => lookup(car_list@, car_name@) is None,
        },
{
    let wanted = car_name.to_owned();
    let n = car_list.cars.len();
    let mut i: usize = 0;
    assert(car_list@.subrange(0, n as int) =~= car_list@);
    while i < n
        invariant
            n == car_list.cars@.len(),
            n == car_list@.len(),
            i <= n,
            wanted@ == car_name@,
            lookup(car_list@, car_name@) == lookup(car_list@.subrange(i as int, n as int), car_name@),
        decreases n - i,
    {
        let car = &car_list.cars[i];
        let ghost rest = car_list@.subrange(i as int, n as int);
        assert(rest[0] == car@);
        if car.name == wanted {
            return Some(car);
        }
        assert(rest.drop_first() =~= car_list@.subrange(i + 1, n as int));
        i = i + 1;
    }
    None
}

/// Looks up an optional name in the catalog: the first car with exactly
/// that name, `MissingName` when no name is given, `NotFound` when no car
/// has it.
pub fn find_car<'a>(car_name: Option<&'a str>, car_list: &'a CarList) -> (r: Result<&'a Car, LookupError>)
    ensures
        match r {
            Ok(c) => lookup_request(car_list@, requested_name(car_name)) == Ok::<(Seq<char>, i32), LookupError>(c@),
            Err(e) => lookup_request(car_list@, requested_name(car_name)) == Err::<(Seq<char>, i32), LookupError>(e),
        },
{
    match car_name {
        Some(name) => match get_car_from_name(name, car_list) {
            Some(car) => Ok(car),
            None => Err(LookupError::NotFound),
        },
        None => Err(LookupError::MissingName),
    }
}

/// Looks up an optional name in the catalog, reporting a failure by its
/// human-readable text.
pub fn process_event<'a>(car_name: Option<&'a str>, car_list: &'a CarList) -> (r: Result<&'a Car, &'a str>)
    ensures
        match r {
            Ok(c) => lookup_request(car_list@, requested_name(car_name)) == Ok::<(Seq<char>, i32), LookupError>(c@),
            Err(m) => lookup_request(car_list@, requested_name(car_name)) matches Err(e) && m@ == e.text(),
        },
{
    match find_car(car_name, car_list) {
        Ok(car) => Ok(car),
        Err(e) => Err(e.message()),
    }
}

/// Building the catalog is deterministic: any two catalogs that `new`
/// returns hold the same three cars, in the same order.
pub proof fn lemma_new_deterministic(a: CarList, b: CarList)
    requires
        call_ensures(CarList::new, (), a),
        call_ensures(CarList::new, (), b),
    ensures
        a@ == b@,
        a@.len() == 3,
        a@[0] == ("porsche"@, 120000i32),
        a@[1] == ("ferrari"@, 340000i32),
        a@[2] == ("mazda"@, 32000i32),
{
}

} // verus!
