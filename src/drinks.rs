use vstd::prelude::*;
use crate::models::{Beer, Brewery, Date, Drink, ExpandedDrink, NewBeer, NewBrewery, NewDrink, StoreError};
use crate::reply::{bare_of, notice_of, success_of, Notice, Reply, ResponseStatus};

verus! {

/// The form of a new drink. Where no brewery or beer of these names is
/// known, one is created.
#[derive(Clone, Debug, PartialEq, Eq)]
pub struct DrinkForm {
    pub drank_on: Date,
    pub beer: String,
    pub brewery: String,
    pub rating: i16,
    pub comment: Option<String>,
}

/// Where the recording of a drink stands.
#[derive(Clone, Copy, Debug, PartialEq, Eq, Structural)]
pub enum DrinkStep {
    FindingBrewery,
    CreatingBrewery,
    /// The insert met a brewery of that name made meanwhile: look it up.
    RefindingBrewery,
    FindingBeer { brewery_id: i32 },
    CreatingBeer { brewery_id: i32 },
    /// The insert met a beer of that name made meanwhile: look it up.
    RefindingBeer { brewery_id: i32 },
    Recording,
    Fetching,
    Finished,
}

/// The recording of a drink for a person, under way.
#[derive(Debug)]
pub struct DrinkFlow {
    pub person_id: i32,
    pub form: DrinkForm,
    pub step: DrinkStep,
}

/// What the recording of a drink does next.
#[derive(Debug)]
pub enum DrinkCommand {
    FindBrewery { name: String },
    CreateBrewery(NewBrewery),
    FindBeer { name: String, brewery_id: i32 },
    CreateBeer(NewBeer),
    Record(NewDrink),
    /// Read the drink back with its beer and brewery.
    Fetch { drink_id: i32 },
    /// Answer, and stop.
    Respond(Reply<ExpandedDrink>),
}

/// What came back from the command last issued.
#[derive(Debug)]
pub enum DrinkEvent {
    BreweryFound(Result<Option<Brewery>, StoreError>),
    BreweryCreated(Result<Brewery, StoreError>),
    BeerFound(Result<Option<Beer>, StoreError>),
    BeerCreated(Result<Beer, StoreError>),
    Recorded(Result<Drink, StoreError>),
    Fetched(Result<ExpandedDrink, StoreError>),
}

pub open spec fn flow_at(f: DrinkFlow, step: DrinkStep) -> DrinkFlow {
    DrinkFlow { person_id: f.person_id, form: f.form, step }
}

pub open spec fn new_drink_of(f: DrinkFlow, beer_id: i32) -> NewDrink {
    NewDrink {
        person_id: f.person_id,
        drank_on: f.form.drank_on,
        beer_id,
        rating: f.form.rating,
        comment: f.form.comment,
    }
}

pub open spec fn drink_start(person_id: i32, form: DrinkForm) -> (DrinkFlow, DrinkCommand) {
    (
        DrinkFlow { person_id, form, step: DrinkStep::FindingBrewery },
        DrinkCommand::FindBrewery { name: form.brewery },
    )
}

pub open spec fn to_beer_lookup(f: DrinkFlow, brewery_id: i32) -> (DrinkFlow, DrinkCommand) {
    (
        flow_at(f, DrinkStep::FindingBeer { brewery_id }),
        DrinkCommand::FindBeer { name: f.form.beer, brewery_id },
    )
}

pub open spec fn to_record(f: DrinkFlow, beer_id: i32) -> (DrinkFlow, DrinkCommand) {
    (flow_at(f, DrinkStep::Recording), DrinkCommand::Record(new_drink_of(f, beer_id)))
}

pub open spec fn drink_failed(f: DrinkFlow) -> (DrinkFlow, DrinkCommand) {
    (flow_at(f, DrinkStep::Finished), DrinkCommand::Respond(bare_of(500)))
}

/// The state and command that the recording of a drink moves to on an event.
pub open spec fn drink_transition(f: DrinkFlow, e: DrinkEvent) -> (DrinkFlow, DrinkCommand) {
    match (f.step, e) {
        (DrinkStep::FindingBrewery, DrinkEvent::BreweryFound(Ok(Some(b)))) => to_beer_lookup(f, b.id),
        (DrinkStep::FindingBrewery, DrinkEvent::BreweryFound(Ok(None))) => (
            flow_at(f, DrinkStep::CreatingBrewery),
            DrinkCommand::CreateBrewery(NewBrewery { name: f.form.brewery }),
        ),
        (DrinkStep::CreatingBrewery, DrinkEvent::BreweryCreated(Ok(b))) => to_beer_lookup(f, b.id),
        (DrinkStep::CreatingBrewery, DrinkEvent::BreweryCreated(Err(StoreError::Conflict))) => (
            flow_at(f, DrinkStep::RefindingBrewery),
            DrinkCommand::FindBrewery { name: f.form.brewery },
        ),
        (DrinkStep::RefindingBrewery, DrinkEvent::BreweryFound(Ok(Some(b)))) => to_beer_lookup(f, b.id),
        (DrinkStep::FindingBeer { brewery_id }, DrinkEvent::BeerFound(Ok(Some(beer)))) => to_record(f, beer.id),
        (DrinkStep::FindingBeer { brewery_id }, DrinkEvent::BeerFound(Ok(None))) => (
            flow_at(f, DrinkStep::CreatingBeer { brewery_id }),
            DrinkCommand::CreateBeer(NewBeer { name: f.form.beer, brewery_id }),
        ),
        (DrinkStep::CreatingBeer { brewery_id }, DrinkEvent::BeerCreated(Ok(beer))) => to_record(f, beer.id),
        (DrinkStep::CreatingBeer { brewery_id }, DrinkEvent::BeerCreated(Err(StoreError::Conflict))) => (
            flow_at(f, DrinkStep::RefindingBeer { brewery_id }),
            DrinkCommand::FindBeer { name: f.form.beer, brewery_id },
        ),
        (DrinkStep::RefindingBeer { brewery_id }, DrinkEvent::BeerFound(Ok(Some(beer)))) => to_record(f, beer.id),
        (DrinkStep::Recording, DrinkEvent::Recorded(Ok(d))) => (
            flow_at(f, DrinkStep::Fetching),
            DrinkCommand::Fetch { drink_id: d.id },
        ),
        (DrinkStep::Fetching, DrinkEvent::Fetched(Ok(x))) => (
            flow_at(f, DrinkStep::Finished),
            DrinkCommand::Respond(success_of(x)),
        ),
        _ => drink_failed(f),
    }
}

fn copy_comment(c: &Option<String>) -> (r: Option<String>)
    ensures
        r == *c,
{
    match c {
        Some(s) => Some(s.clone()),
        None => None,
    }
}

impl DrinkFlow {
    /// Starts recording a drink for `person_id`: first the brewery is looked up.
    pub fn start(person_id: i32, form: DrinkForm) -> (r: (DrinkFlow, DrinkCommand))
        requires
            form.drank_on.wf(),
        ensures
            r == drink_start(person_id, form),
    {
        let name = form.brewery.clone();
        (DrinkFlow { person_id, form, step: DrinkStep::FindingBrewery }, DrinkCommand::FindBrewery { name })
    }

    fn beer_lookup(self, brewery_id: i32) -> (r: (DrinkFlow, DrinkCommand))
        ensures
            r == to_beer_lookup(self, brewery_id),
    {
        let name = self.form.beer.clone();
        (
            DrinkFlow { person_id: self.person_id, form: self.form, step: DrinkStep::FindingBeer { brewery_id } },
            DrinkCommand::FindBeer { name, brewery_id },
        )
    }

    fn record(self, beer_id: i32) -> (r: (DrinkFlow, DrinkCommand))
        ensures
            r == to_record(self, beer_id),
    {
        let d = NewDrink {
            person_id: self.person_id,
            drank_on: self.form.drank_on,
            beer_id,
            rating: self.form.rating,
            comment: copy_comment(&self.form.comment),
        };
        (
            DrinkFlow { person_id: self.person_id, form: self.form, step: DrinkStep::Recording },
            DrinkCommand::Record(d),
        )
    }

    fn moved(self, step: DrinkStep, c: DrinkCommand) -> (r: (DrinkFlow, DrinkCommand))
        ensures
            r == (flow_at(self, step), c),
    {
        (DrinkFlow { person_id: self.person_id, form: self.form, step }, c)
    }

    /// Moves the recording on by what the last command gave back. Any
    /// failure, or an event that does not answer the last command, ends it
    /// with a bare internal error.
    pub fn advance(self, e: DrinkEvent) -> (r: (DrinkFlow, DrinkCommand))
        ensures
            r == drink_transition(self, e),
    {
        match (self.step, e) {
            (DrinkStep::FindingBrewery, DrinkEvent::BreweryFound(Ok(Some(b)))) => self.beer_lookup(b.id),
            (DrinkStep::FindingBrewery, DrinkEvent::BreweryFound(Ok(None))) => {
                let c = DrinkCommand::CreateBrewery(NewBrewery { name: self.form.brewery.clone() });
                self.moved(DrinkStep::CreatingBrewery, c)
            },
            (DrinkStep::CreatingBrewery, DrinkEvent::BreweryCreated(Ok(b))) => self.beer_lookup(b.id),
            (DrinkStep::CreatingBrewery, DrinkEvent::BreweryCreated(Err(StoreError::Conflict))) => {
                let c = DrinkCommand::FindBrewery { name: self.form.brewery.clone() };
                self.moved(DrinkStep::RefindingBrewery, c)
            },
            (DrinkStep::RefindingBrewery, DrinkEvent::BreweryFound(Ok(Some(b)))) => self.beer_lookup(b.id),
            (DrinkStep::FindingBeer { brewery_id }, DrinkEvent::BeerFound(Ok(Some(beer)))) => self.record(beer.id),
            (DrinkStep::FindingBeer { brewery_id }, DrinkEvent::BeerFound(Ok(None))) => {
                let c = DrinkCommand::CreateBeer(NewBeer { name: self.form.beer.clone(), brewery_id });
                self.moved(DrinkStep::CreatingBeer { brewery_id }, c)
            },
            (DrinkStep::CreatingBeer { brewery_id }, DrinkEvent::BeerCreated(Ok(beer))) => self.record(beer.id),
            (DrinkStep::CreatingBeer { brewery_id }, DrinkEvent::BeerCreated(Err(StoreError::Conflict))) => {
                let c = DrinkCommand::FindBeer { name: self.form.beer.clone(), brewery_id };
                self.moved(DrinkStep::RefindingBeer { brewery_id }, c)
            },
            (DrinkStep::RefindingBeer { brewery_id }, DrinkEvent::BeerFound(Ok(Some(beer)))) => self.record(beer.id),
            (DrinkStep::Recording, DrinkEvent::Recorded(Ok(d))) => {
                self.moved(DrinkStep::Fetching, DrinkCommand::Fetch { drink_id: d.id })
            },
            (DrinkStep::Fetching, DrinkEvent::Fetched(Ok(x))) => {
                self.moved(DrinkStep::Finished, DrinkCommand::Respond(Reply::success(x)))
            },
            _ => self.moved(DrinkStep::Finished, DrinkCommand::Respond(Reply::bare(500))),
        }
    }
}

/// The answer to a listing of the caller's drinks.
pub fn drinks_reply(found: Result<Vec<ExpandedDrink>, StoreError>) -> (r: Reply<Vec<ExpandedDrink>>)
    ensures
        found matches Ok(ds) ==> r == success_of(ds),
        found is Err ==> r == bare_of::<Vec<ExpandedDrink>>(500),
{
    match found {
        Ok(ds) => Reply::success(ds),
        Err(_) => Reply::bare(500),
    }
}

/// The answer to a deletion, from the number of rows it removed.
pub open spec fn delete_reply_of(deleted: Result<u64, StoreError>) -> Reply<()> {
    match deleted {
        Ok(0) => notice_of(404, ResponseStatus::Fail, Notice::DrinkNotFound),
        Ok(1) => notice_of(200, ResponseStatus::Success, Notice::Deleted),
        _ => notice_of(500, ResponseStatus::Error, Notice::UnexpectedError),
    }
}

/// The answer to a deletion of one of the caller's drinks (the rows with
/// that id and the caller as owner), from the number of rows it removed.
pub fn delete_reply(deleted: Result<u64, StoreError>) -> (r: Reply<()>)
    ensures
        r == delete_reply_of(deleted),
        r.code == 200 <==> deleted == Ok::<u64, StoreError>(1),
        r.code == 404 <==> deleted == Ok::<u64, StoreError>(0),
{
    match deleted {
        Ok(0) => Reply::notice(404, ResponseStatus::Fail, Notice::DrinkNotFound),
        Ok(1) => Reply::notice(200, ResponseStatus::Success, Notice::Deleted),
        _ => Reply::notice(500, ResponseStatus::Error, Notice::UnexpectedError),
    }
}

/// A submission whose brewery and beer are both unknown inserts the brewery
/// once, under the submitted name; looks the beer up under the new brewery's
/// id; inserts the beer once, under the submitted name and that id; records
/// the drink against the new beer; and answers with the drink read back. No
/// other command on the way inserts a brewery or a beer.
pub proof fn lemma_unseen_names_inserted_once(
    person_id: i32,
    form: DrinkForm,
    brewery: Brewery,
    beer: Beer,
    drink: Drink,
    expanded: ExpandedDrink,
)
    ensures
        ({
            let (f0, c0) = drink_start(person_id, form);
            let (f1, c1) = drink_transition(f0, DrinkEvent::BreweryFound(Ok(None)));
            let (f2, c2) = drink_transition(f1, DrinkEvent::BreweryCreated(Ok(brewery)));
            let (f3, c3) = drink_transition(f2, DrinkEvent::BeerFound(Ok(None)));
            let (f4, c4) = drink_transition(f3, DrinkEvent::BeerCreated(Ok(beer)));
            let (f5, c5) = drink_transition(f4, DrinkEvent::Recorded(Ok(drink)));
            let (f6, c6) = drink_transition(f5, DrinkEvent::Fetched(Ok(expanded)));
            let cmds = seq![c0, c1, c2, c3, c4, c5, c6];
            &&& c0 == (DrinkCommand::FindBrewery { name: form.brewery })
            &&& c1 == DrinkCommand::CreateBrewery(NewBrewery { name: form.brewery })
            &&& c2 == (DrinkCommand::FindBeer { name: form.beer, brewery_id: brewery.id })
            &&& c3 == DrinkCommand::CreateBeer(NewBeer { name: form.beer, brewery_id: brewery.id })
            &&& c4 == DrinkCommand::Record(
                NewDrink {
                    person_id,
                    drank_on: form.drank_on,
                    beer_id: beer.id,
                    rating: form.rating,
                    comment: form.comment,
                },
            )
            &&& c5 == (DrinkCommand::Fetch { drink_id: drink.id })
            &&& c6 == DrinkCommand::Respond(success_of(expanded))
            &&& f6.step == DrinkStep::Finished
            &&& forall|i: int| 0 <= i < 7 && i != 1 ==> !(#[trigger] cmds[i] is CreateBrewery)
            &&& forall|i: int| 0 <= i < 7 && i != 3 ==> !(#[trigger] cmds[i] is CreateBeer)
        }),
{
}

/// A brewery or a beer is inserted only on a lookup that found none of that
/// name; an insert that meets a row of that name made meanwhile (the store's
/// uniqueness constraint) is followed by a lookup of the name, and the
/// recording never inserts a second time.
pub proof fn lemma_insert_only_after_empty_lookup(f: DrinkFlow, e: DrinkEvent)
    ensures
        drink_transition(f, e).1 is CreateBrewery ==> (f.step == DrinkStep::FindingBrewery
            && e matches DrinkEvent::BreweryFound(Ok(None))),
        drink_transition(f, e).1 is CreateBeer ==> (f.step is FindingBeer
            && e matches DrinkEvent::BeerFound(Ok(None))),
        (f.step == DrinkStep::CreatingBrewery && e matches DrinkEvent::BreweryCreated(Err(StoreError::Conflict)))
            ==> drink_transition(f, e).1 == (DrinkCommand::FindBrewery { name: f.form.brewery }),
        (f.step is CreatingBeer && e matches DrinkEvent::BeerCreated(Err(StoreError::Conflict)))
            ==> drink_transition(f, e).1 == (DrinkCommand::FindBeer {
                name: f.form.beer,
                brewery_id: f.step->CreatingBeer_brewery_id,
            }),
        !(f.step is FindingBrewery) ==> !(drink_transition(f, e).1 is CreateBrewery),
        !(f.step is FindingBeer) ==> !(drink_transition(f, e).1 is CreateBeer),
{
}

/// The number of brewery rows with this name.
pub open spec fn breweries_named(rows: Seq<Brewery>, name: Seq<char>) -> nat
    decreases rows.len(),
{
    if rows.len() == 0 {
        0
    } else {
        breweries_named(rows.drop_last(), name) + if rows.last().name@ == name {
            1nat
        } else {
            0nat
        }
    }
}

/// The number of beer rows with this name under this brewery.
pub open spec fn beers_named(rows: Seq<Beer>, name: Seq<char>, brewery_id: i32) -> nat
    decreases rows.len(),
{
    if rows.len() == 0 {
        0
    } else {
        beers_named(rows.drop_last(), name, brewery_id) + if rows.last().name@ == name
            && rows.last().brewery_id == brewery_id {
            1nat
        } else {
            0nat
        }
    }
}

/// The brewery and beer tables of a store, and how the store answers the
/// commands of the recording on them: a lookup gives a row of that name if
/// there is one, an insert adds a row with the id `fresh`, and the insert of
/// a drink leaves both tables as they are.
pub open spec fn store_answer(
    breweries: Seq<Brewery>,
    beers: Seq<Beer>,
    c: DrinkCommand,
    fresh: i32,
) -> (Seq<Brewery>, Seq<Beer>, DrinkEvent) {
    match c {
        DrinkCommand::FindBrewery { name } => (
            breweries,
            beers,
            DrinkEvent::BreweryFound(Ok(
                if exists|i: int| 0 <= i < breweries.len() && #[trigger] breweries[i].name@ == name@ {
                    Some(breweries[choose|i: int| 0 <= i < breweries.len() && #[trigger] breweries[i].name@ == name@])
                } else {
                    None
                },
            )),
        ),
        DrinkCommand::CreateBrewery(nb) => {
            let row = Brewery { id: fresh, name: nb.name, created_at: 0, updated_at: 0 };
            (breweries.push(row), beers, DrinkEvent::BreweryCreated(Ok(row)))
        },
        DrinkCommand::FindBeer { name, brewery_id } => (
            breweries,
            beers,
            DrinkEvent::BeerFound(Ok(
                if exists|i: int|
                    0 <= i < beers.len() && #[trigger] beers[i].name@ == name@ && beers[i].brewery_id == brewery_id {
                    Some(beers[choose|i: int|
                        0 <= i < beers.len() && #[trigger] beers[i].name@ == name@ && beers[i].brewery_id == brewery_id])
                } else {
                    None
                },
            )),
        ),
        DrinkCommand::CreateBeer(nb) => {
            let row = Beer { id: fresh, name: nb.name, brewery_id: nb.brewery_id, created_at: 0, updated_at: 0 };
            (breweries, beers.push(row), DrinkEvent::BeerCreated(Ok(row)))
        },
        DrinkCommand::Record(nd) => (
            breweries,
            beers,
            DrinkEvent::Recorded(Ok(Drink {
                id: fresh,
                person_id: nd.person_id,
                drank_on: nd.drank_on,
                beer_id: nd.beer_id,
                rating: nd.rating,
                comment: nd.comment,
                created_at: 0,
                updated_at: 0,
            })),
        ),
        _ => (breweries, beers, DrinkEvent::Fetched(Err(StoreError::Query))),
    }
}

proof fn lemma_no_brewery_named(rows: Seq<Brewery>, name: Seq<char>)
    requires
        breweries_named(rows, name) == 0,
    ensures
        forall|i: int| 0 <= i < rows.len() ==> #[trigger] rows[i].name@ != name,
    decreases rows.len(),
{
    if rows.len() > 0 {
        let init = rows.drop_last();
        lemma_no_brewery_named(init, name);
        assert forall|i: int| 0 <= i < rows.len() implies #[trigger] rows[i].name@ != name by {
            if i < init.len() {
                assert(rows[i] == init[i]);
            }
        }
    }
}

proof fn lemma_no_beer_named(rows: Seq<Beer>, name: Seq<char>, brewery_id: i32)
    requires
        forall|i: int| 0 <= i < rows.len() ==> #[trigger] rows[i].name@ != name,
    ensures
        beers_named(rows, name, brewery_id) == 0,
    decreases rows.len(),
{
    if rows.len() > 0 {
        let init = rows.drop_last();
        assert forall|i: int| 0 <= i < init.len() implies #[trigger] init[i].name@ != name by {
            assert(init[i] == rows[i]);
        }
        lemma_no_beer_named(init, name, brewery_id);
        assert(rows.last() == rows[rows.len() - 1]);
    }
}

proof fn lemma_one_brewery_named(rows: Seq<Brewery>, name: Seq<char>, i: int, j: int)
    requires
        breweries_named(rows, name) == 1,
        0 <= i < rows.len(),
        0 <= j < rows.len(),
        rows[i].name@ == name,
        rows[j].name@ == name,
    ensures
        i == j,
    decreases rows.len(),
{
    let init = rows.drop_last();
    let n = rows.len() - 1;
    assert(rows.last() == rows[n]);
    if rows[n].name@ == name {
        lemma_no_brewery_named(init, name);
        if i < n {
            assert(init[i] == rows[i]);
        }
        if j < n {
            assert(init[j] == rows[j]);
        }
    } else {
        assert(init[i] == rows[i]);
        assert(init[j] == rows[j]);
        lemma_one_brewery_named(init, name, i, j);
    }
}

proof fn lemma_no_beer_named_under(rows: Seq<Beer>, name: Seq<char>, brewery_id: i32)
    requires
        beers_named(rows, name, brewery_id) == 0,
    ensures
        forall|i: int| 0 <= i < rows.len() ==> !(#[trigger] rows[i].name@ == name && rows[i].brewery_id == brewery_id),
    decreases rows.len(),
{
    if rows.len() > 0 {
        let init = rows.drop_last();
        lemma_no_beer_named_under(init, name, brewery_id);
        assert forall|i: int| 0 <= i < rows.len() implies !(#[trigger] rows[i].name@ == name && rows[i].brewery_id
            == brewery_id) by {
            if i < init.len() {
                assert(rows[i] == init[i]);
            }
        }
    }
}

proof fn lemma_one_beer_named(rows: Seq<Beer>, name: Seq<char>, brewery_id: i32, i: int, j: int)
    requires
        beers_named(rows, name, brewery_id) == 1,
        0 <= i < rows.len(),
        0 <= j < rows.len(),
        rows[i].name@ == name && rows[i].brewery_id == brewery_id,
        rows[j].name@ == name && rows[j].brewery_id == brewery_id,
    ensures
        i == j,
    decreases rows.len(),
{
    let init = rows.drop_last();
    let n = rows.len() - 1;
    assert(rows.last() == rows[n]);
    if rows[n].name@ == name && rows[n].brewery_id == brewery_id {
        lemma_no_beer_named_under(init, name, brewery_id);
        if i < n {
            assert(init[i] == rows[i]);
        }
        if j < n {
            assert(init[j] == rows[j]);
        }
    } else {
        assert(init[i] == rows[i]);
        assert(init[j] == rows[j]);
        lemma_one_beer_named(init, name, brewery_id, i, j);
    }
}

/// Get-or-create: a submission whose brewery name and beer name no row
/// carries adds exactly one brewery row (the submitted name, the id the
/// store gives it) and exactly one beer row (the submitted name, under that
/// brewery), and goes on to record the drink against that new beer.
pub proof fn lemma_unseen_names_leave_one_row_each(
    person_id: i32,
    form: DrinkForm,
    breweries: Seq<Brewery>,
    beers: Seq<Beer>,
    brewery_id: i32,
    beer_id: i32,
)
    requires
        breweries_named(breweries, form.brewery@) == 0,
        forall|i: int| 0 <= i < beers.len() ==> #[trigger] beers[i].name@ != form.beer@,
    ensures
        ({
            let (f0, c0) = drink_start(person_id, form);
            let (b1, e1, v1) = store_answer(breweries, beers, c0, brewery_id);
            let (f1, c1) = drink_transition(f0, v1);
            let (b2, e2, v2) = store_answer(b1, e1, c1, brewery_id);
            let (f2, c2) = drink_transition(f1, v2);
            let (b3, e3, v3) = store_answer(b2, e2, c2, beer_id);
            let (f3, c3) = drink_transition(f2, v3);
            let (b4, e4, v4) = store_answer(b3, e3, c3, beer_id);
            let (f4, c4) = drink_transition(f3, v4);
            &&& b4 == breweries.push(Brewery { id: brewery_id, name: form.brewery, created_at: 0, updated_at: 0 })
            &&& e4 == beers.push(
                Beer { id: beer_id, name: form.beer, brewery_id, created_at: 0, updated_at: 0 },
            )
            &&& breweries_named(b4, form.brewery@) == 1
            &&& beers_named(e4, form.beer@, brewery_id) == 1
            &&& f4.step == DrinkStep::Recording
            &&& c4 == DrinkCommand::Record(new_drink_of(f0, beer_id))
        }),
{
    lemma_no_brewery_named(breweries, form.brewery@);
    lemma_no_beer_named(beers, form.beer@, brewery_id);
    let (f0, c0) = drink_start(person_id, form);
    let (b1, e1, v1) = store_answer(breweries, beers, c0, brewery_id);
    assert(v1 == DrinkEvent::BreweryFound(Ok(None)));
    let (f1, c1) = drink_transition(f0, v1);
    let (b2, e2, v2) = store_answer(b1, e1, c1, brewery_id);
    assert(b2.drop_last() =~= breweries);
    let (f2, c2) = drink_transition(f1, v2);
    let (b3, e3, v3) = store_answer(b2, e2, c2, beer_id);
    assert(v3 == DrinkEvent::BeerFound(Ok(None)));
    let (f3, c3) = drink_transition(f2, v3);
    let (b4, e4, v4) = store_answer(b3, e3, c3, beer_id);
    assert(e4.drop_last() =~= beers);
}

/// Get-or-create is idempotent: where exactly one brewery row carries the
/// submitted name and exactly one beer row of the submitted name stands
/// under it (as a first submission leaves them), a submission inserts
/// neither a brewery nor a beer, leaves both tables as they are, and records
/// the drink against that same beer.
pub proof fn lemma_known_names_insert_nothing(
    person_id: i32,
    form: DrinkForm,
    breweries: Seq<Brewery>,
    beers: Seq<Beer>,
    bi: int,
    xi: int,
    fresh: i32,
)
    requires
        breweries_named(breweries, form.brewery@) == 1,
        0 <= bi < breweries.len(),
        breweries[bi].name@ == form.brewery@,
        beers_named(beers, form.beer@, breweries[bi].id) == 1,
        0 <= xi < beers.len(),
        beers[xi].name@ == form.beer@,
        beers[xi].brewery_id == breweries[bi].id,
    ensures
        ({
            let (f0, c0) = drink_start(person_id, form);
            let (b1, e1, v1) = store_answer(breweries, beers, c0, fresh);
            let (f1, c1) = drink_transition(f0, v1);
            let (b2, e2, v2) = store_answer(b1, e1, c1, fresh);
            let (f2, c2) = drink_transition(f1, v2);
            &&& c1 == (DrinkCommand::FindBeer { name: form.beer, brewery_id: breweries[bi].id })
            &&& c2 == DrinkCommand::Record(new_drink_of(f0, beers[xi].id))
            &&& f2.step == DrinkStep::Recording
            &&& b2 == breweries
            &&& e2 == beers
        }),
{
    let (f0, c0) = drink_start(person_id, form);
    assert(breweries[bi].name@ == form.brewery@);
    let (b1, e1, v1) = store_answer(breweries, beers, c0, fresh);
    let k = choose|k: int| 0 <= k < breweries.len() && #[trigger] breweries[k].name@ == form.brewery@;
    lemma_one_brewery_named(breweries, form.brewery@, k, bi);
    assert(v1 == DrinkEvent::BreweryFound(Ok(Some(breweries[bi]))));
    let (f1, c1) = drink_transition(f0, v1);
    assert(beers[xi].name@ == form.beer@ && beers[xi].brewery_id == breweries[bi].id);
    let m = choose|m: int|
        0 <= m < beers.len() && #[trigger] beers[m].name@ == form.beer@ && beers[m].brewery_id == breweries[bi].id;
    lemma_one_beer_named(beers, form.beer@, breweries[bi].id, m, xi);
}

/// A brewery insert against a store that keeps brewery names unique: where
/// a row of that name exists the insert fails with a conflict and changes
/// nothing, else it adds a row with the id `fresh`.
pub open spec fn unique_brewery_insert(rows: Seq<Brewery>, c: DrinkCommand, fresh: i32) -> (Seq<Brewery>, DrinkEvent) {
    match c {
        DrinkCommand::CreateBrewery(nb) => {
            if exists|i: int| 0 <= i < rows.len() && #[trigger] rows[i].name@ == nb.name@ {
                (rows, DrinkEvent::BreweryCreated(Err(StoreError::Conflict)))
            } else {
                let row = Brewery { id: fresh, name: nb.name, created_at: 0, updated_at: 0 };
                (rows.push(row), DrinkEvent::BreweryCreated(Ok(row)))
            }
        },
        _ => (rows, DrinkEvent::BreweryCreated(Err(StoreError::Query))),
    }
}

/// Two submissions of the same unknown brewery name that both look it up
/// before either inserts it, against a store that keeps brewery names
/// unique: the first insert adds the row, the second meets the conflict and
/// looks the name up again. One brewery row of that name exists afterward,
/// and both go on to their beer under that one brewery.
pub proof fn lemma_concurrent_brewery_submissions_one_row(
    person_a: i32,
    form_a: DrinkForm,
    person_b: i32,
    form_b: DrinkForm,
    breweries: Seq<Brewery>,
    beers: Seq<Beer>,
    id_a: i32,
    id_b: i32,
)
    requires
        form_a.brewery@ == form_b.brewery@,
        breweries_named(breweries, form_a.brewery@) == 0,
    ensures
        ({
            let (a0, ca0) = drink_start(person_a, form_a);
            let (b0, cb0) = drink_start(person_b, form_b);
            let (_, _, va1) = store_answer(breweries, beers, ca0, id_a);
            let (_, _, vb1) = store_answer(breweries, beers, cb0, id_b);
            let (a1, ca1) = drink_transition(a0, va1);
            let (b1, cb1) = drink_transition(b0, vb1);
            let (t1, va2) = unique_brewery_insert(breweries, ca1, id_a);
            let (a2, ca2) = drink_transition(a1, va2);
            let (t2, vb2) = unique_brewery_insert(t1, cb1, id_b);
            let (b2, cb2) = drink_transition(b1, vb2);
            let (_, _, vb3) = store_answer(t2, beers, cb2, id_b);
            let (b3, cb3) = drink_transition(b2, vb3);
            &&& breweries_named(t2, form_a.brewery@) == 1
            &&& ca2 == (DrinkCommand::FindBeer { name: form_a.beer, brewery_id: id_a })
            &&& cb3 == (DrinkCommand::FindBeer { name: form_b.beer, brewery_id: id_a })
        }),
{
    let name = form_a.brewery@;
    lemma_no_brewery_named(breweries, name);
    let (a0, ca0) = drink_start(person_a, form_a);
    let (b0, cb0) = drink_start(person_b, form_b);
    let (_, _, va1) = store_answer(breweries, beers, ca0, id_a);
    let (_, _, vb1) = store_answer(breweries, beers, cb0, id_b);
    assert(va1 == DrinkEvent::BreweryFound(Ok(None)));
    assert(vb1 == DrinkEvent::BreweryFound(Ok(None)));
    let (a1, ca1) = drink_transition(a0, va1);
    let (b1, cb1) = drink_transition(b0, vb1);
    let (t1, va2) = unique_brewery_insert(breweries, ca1, id_a);
    let row = Brewery { id: id_a, name: form_a.brewery, created_at: 0, updated_at: 0 };
    assert(t1 == breweries.push(row));
    assert(t1.drop_last() =~= breweries);
    assert(t1[breweries.len() as int] == row);
    assert(cb1 == DrinkCommand::CreateBrewery(NewBrewery { name: form_b.brewery }));
    assert(t1[breweries.len() as int].name@ == form_b.brewery@);
    let (t2, vb2) = unique_brewery_insert(t1, cb1, id_b);
    assert(t2 == t1);
    let (b2, cb2) = drink_transition(b1, vb2);
    let (_, _, vb3) = store_answer(t2, beers, cb2, id_b);
    let k = choose|k: int| 0 <= k < t2.len() && #[trigger] t2[k].name@ == form_b.brewery@;
    assert(k == breweries.len()) by {
        if k < breweries.len() {
            assert(t2[k] == breweries[k]);
        }
    }
}

/// Whether a command inserts a brewery of this name.
pub open spec fn inserts_brewery_named(c: DrinkCommand, name: Seq<char>) -> bool {
    match c {
        DrinkCommand::CreateBrewery(nb) => nb.name@ == name,
        _ => false,
    }
}

/// The brewery table after a store that keeps brewery names unique has
/// served `cmds` in order, the `k`-th insert getting the id `ids[k]`. The
/// commands may come from any number of recordings, interleaved in any way.
pub open spec fn unique_store_run(rows: Seq<Brewery>, cmds: Seq<DrinkCommand>, ids: Seq<i32>) -> Seq<Brewery>
    decreases cmds.len(),
{
    if cmds.len() == 0 {
        rows
    } else {
        unique_brewery_insert(unique_store_run(rows, cmds.drop_last(), ids), cmds.last(), ids[cmds.len() - 1]).0
    }
}

proof fn lemma_brewery_named_exists(rows: Seq<Brewery>, name: Seq<char>, i: int)
    requires
        0 <= i < rows.len(),
        rows[i].name@ == name,
    ensures
        breweries_named(rows, name) >= 1,
{
    if breweries_named(rows, name) == 0 {
        lemma_no_brewery_named(rows, name);
    }
}

proof fn lemma_brewery_push(rows: Seq<Brewery>, row: Brewery, name: Seq<char>)
    ensures
        breweries_named(rows.push(row), name) == breweries_named(rows, name) + if row.name@ == name {
            1nat
        } else {
            0nat
        },
{
    assert(rows.push(row).drop_last() =~= rows);
}

/// Concurrent submissions never make two breweries of one name: against a
/// store that keeps brewery names unique, whatever commands the recordings
/// issue, in whatever interleaving, the number of brewery rows of a name
/// never exceeds one and never falls; once any recording has tried to insert
/// a brewery of that name, exactly one row carries it.
pub proof fn lemma_unique_store_one_row(rows: Seq<Brewery>, cmds: Seq<DrinkCommand>, ids: Seq<i32>, name: Seq<char>)
    requires
        breweries_named(rows, name) <= 1,
    ensures
        breweries_named(unique_store_run(rows, cmds, ids), name) <= 1,
        breweries_named(unique_store_run(rows, cmds, ids), name) >= breweries_named(rows, name),
        (exists|k: int| 0 <= k < cmds.len() && #[trigger] inserts_brewery_named(cmds[k], name))
            ==> breweries_named(unique_store_run(rows, cmds, ids), name) == 1,
    decreases cmds.len(),
{
    if cmds.len() > 0 {
        let init = cmds.drop_last();
        let prev = unique_store_run(rows, init, ids);
        lemma_unique_store_one_row(rows, init, ids, name);
        let c = cmds.last();
        let n = cmds.len() - 1;
        assert(c == cmds[n]);
        match c {
            DrinkCommand::CreateBrewery(nb) => {
                if exists|i: int| 0 <= i < prev.len() && #[trigger] prev[i].name@ == nb.name@ {
                    if nb.name@ == name {
                        let i = choose|i: int| 0 <= i < prev.len() && #[trigger] prev[i].name@ == nb.name@;
                        lemma_brewery_named_exists(prev, name, i);
                    }
                } else {
                    let row = Brewery { id: ids[n], name: nb.name, created_at: 0, updated_at: 0 };
                    lemma_brewery_push(prev, row, name);
                    if nb.name@ == name {
                        if breweries_named(prev, name) > 0 {
                            assert forall|i: int| 0 <= i < prev.len() implies #[trigger] prev[i].name@ != name by {
                                assert(!(prev[i].name@ == nb.name@));
                            }
                            lemma_no_brewery_count_zero(prev, name);
                        }
                    }
                }
            },
            _ => {},
        }
        if exists|k: int| 0 <= k < cmds.len() && #[trigger] inserts_brewery_named(cmds[k], name) {
            let k = choose|k: int| 0 <= k < cmds.len() && #[trigger] inserts_brewery_named(cmds[k], name);
            if k < n {
                assert(init[k] == cmds[k]);
            }
        }
    }
}

proof fn lemma_no_brewery_count_zero(rows: Seq<Brewery>, name: Seq<char>)
    requires
        forall|i: int| 0 <= i < rows.len() ==> #[trigger] rows[i].name@ != name,
    ensures
        breweries_named(rows, name) == 0,
    decreases rows.len(),
{
    if rows.len() > 0 {
        let init = rows.drop_last();
        assert forall|i: int| 0 <= i < init.len() implies #[trigger] init[i].name@ != name by {
            assert(init[i] == rows[i]);
        }
        lemma_no_brewery_count_zero(init, name);
        assert(rows.last() == rows[rows.len() - 1]);
    }
}

/// The number of drink rows with this id that belong to this person: what a
/// deletion of the person's drink removes.
pub open spec fn owned_count(rows: Seq<Drink>, drink_id: i32, person_id: i32) -> nat
    decreases rows.len(),
{
    if rows.len() == 0 {
        0
    } else {
        let last = rows.last();
        owned_count(rows.drop_last(), drink_id, person_id) + if last.id == drink_id && last.person_id
            == person_id {
            1nat
        } else {
            0nat
        }
    }
}

/// Deleting a drink that the caller does not own answers not-found, whether
/// or not the drink exists under another person.
pub proof fn lemma_delete_foreign_not_found(rows: Seq<Drink>, drink_id: i32, person_id: i32)
    requires
        forall|i: int| 0 <= i < rows.len() && #[trigger] rows[i].id == drink_id ==> rows[i].person_id != person_id,
    ensures
        owned_count(rows, drink_id, person_id) == 0,
        delete_reply_of(Ok(owned_count(rows, drink_id, person_id) as u64)).code == 404,
        delete_reply_of(Ok(owned_count(rows, drink_id, person_id) as u64)).status == ResponseStatus::Fail,
    decreases rows.len(),
{
    if rows.len() > 0 {
        let init = rows.drop_last();
        assert forall|i: int| 0 <= i < init.len() && #[trigger] init[i].id == drink_id implies init[i].person_id
            != person_id by {
            assert(init[i] == rows[i]);
        }
        lemma_delete_foreign_not_found(init, drink_id, person_id);
        assert(rows.last() == rows[rows.len() - 1]);
    }
}

} // verus!
