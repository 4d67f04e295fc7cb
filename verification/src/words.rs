//! The words that names are made of: 2048 of them, so that a word stands for eleven bits.
//!
//! The words stand in rows of eight, each in a cell of nine characters. They are in the order of
//! the alphabet, and no two begin with the same four letters.

use vstd::prelude::*;

use crate::text::{chars_of, slice_of};

verus! {

/// The words from `abandon` to `avocado`.
const FROM_ABANDON: &'static str = "\
abandon  ability  able     about    above    absent   absorb   abstract \
absurd   abuse    access   accident account  accuse   achieve  acid     \
acoustic acquire  across   act      action   actor    actress  actual   \
adapt    add      addict   address  adjust   admit    adult    advance  \
advice   aerobic  affair   afford   afraid   again    age      agent    \
agree    ahead    aim      air      airport  aisle    alarm    album    \
alcohol  alert    alien    all      alley    allow    almost   alone    \
alpha    already  also     alter    always   amateur  amazing  among    \
amount   amused   analyst  anchor   ancient  anger    angle    angry    \
animal   ankle    announce annual   another  answer   antenna  antique  \
anxiety  any      apart    apology  appear   apple    approve  april    \
arch     arctic   area     arena    argue    arm      armed    armor    \
army     around   arrange  arrest   arrive   arrow    art      artefact \
artist   artwork  ask      aspect   assault  asset    assist   assume   \
asthma   athlete  atom     attack   attend   attitude attract  auction  \
audit    august   aunt     author   auto     autumn   average  avocado  ";

/// The words from `avoid` to `cable`.
const FROM_AVOID: &'static str = "\
avoid    awake    aware    away     awesome  awful    awkward  axis     \
baby     bachelor bacon    badge    bag      balance  balcony  ball     \
bamboo   banana   banner   bar      barely   bargain  barrel   base     \
basic    basket   battle   beach    bean     beauty   because  become   \
beef     before   begin    behave   behind   believe  below    belt     \
bench    benefit  best     betray   better   between  beyond   bicycle  \
bid      bike     bind     biology  bird     birth    bitter   black    \
blade    blame    blanket  blast    bleak    bless    blind    blood    \
blossom  blouse   blue     blur     blush    board    boat     body     \
boil     bomb     bone     bonus    book     boost    border   boring   \
borrow   boss     bottom   bounce   box      boy      bracket  brain    \
brand    brass    brave    bread    breeze   brick    bridge   brief    \
bright   bring    brisk    broccoli broken   bronze   broom    brother  \
brown    brush    bubble   buddy    budget   buffalo  build    bulb     \
bulk     bullet   bundle   bunker   burden   burger   burst    bus      \
business busy     butter   buyer    buzz     cabbage  cabin    cable    ";

/// The words from `cactus` to `copper`.
const FROM_CACTUS: &'static str = "\
cactus   cage     cake     call     calm     camera   camp     can      \
canal    cancel   candy    cannon   canoe    canvas   canyon   capable  \
capital  captain  car      carbon   card     cargo    carpet   carry    \
cart     case     cash     casino   castle   casual   cat      catalog  \
catch    category cattle   caught   cause    caution  cave     ceiling  \
celery   cement   census   century  cereal   certain  chair    chalk    \
champion change   chaos    chapter  charge   chase    chat     cheap    \
check    cheese   chef     cherry   chest    chicken  chief    child    \
chimney  choice   choose   chronic  chuckle  chunk    churn    cigar    \
cinnamon circle   citizen  city     civil    claim    clap     clarify  \
claw     clay     clean    clerk    clever   click    client   cliff    \
climb    clinic   clip     clock    clog     close    cloth    cloud    \
clown    club     clump    cluster  clutch   coach    coast    coconut  \
code     coffee   coil     coin     collect  color    column   combine  \
come     comfort  comic    common   company  concert  conduct  confirm  \
congress connect  consider control  convince cook     cool     copper   ";

/// The words from `copy` to `divide`.
const FROM_COPY: &'static str = "\
copy     coral    core     corn     correct  cost     cotton   couch    \
country  couple   course   cousin   cover    coyote   crack    cradle   \
craft    cram     crane    crash    crater   crawl    crazy    cream    \
credit   creek    crew     cricket  crime    crisp    critic   crop     \
cross    crouch   crowd    crucial  cruel    cruise   crumble  crunch   \
crush    cry      crystal  cube     culture  cup      cupboard curious  \
current  curtain  curve    cushion  custom   cute     cycle    dad      \
damage   damp     dance    danger   daring   dash     daughter dawn     \
day      deal     debate   debris   decade   december decide   decline  \
decorate decrease deer     defense  define   defy     degree   delay    \
deliver  demand   demise   denial   dentist  deny     depart   depend   \
deposit  depth    deputy   derive   describe desert   design   desk     \
despair  destroy  detail   detect   develop  device   devote   diagram  \
dial     diamond  diary    dice     diesel   diet     differ   digital  \
dignity  dilemma  dinner   dinosaur direct   dirt     disagree discover \
disease  dish     dismiss  disorder display  distance divert   divide   ";

/// The words from `divorce` to `exit`.
const FROM_DIVORCE: &'static str = "\
divorce  dizzy    doctor   document dog      doll     dolphin  domain   \
donate   donkey   donor    door     dose     double   dove     draft    \
dragon   drama    drastic  draw     dream    dress    drift    drill    \
drink    drip     drive    drop     drum     dry      duck     dumb     \
dune     during   dust     dutch    duty     dwarf    dynamic  eager    \
eagle    early    earn     earth    easily   east     easy     echo     \
ecology  economy  edge     edit     educate  effort   egg      eight    \
either   elbow    elder    electric elegant  element  elephant elevator \
elite    else     embark   embody   embrace  emerge   emotion  employ   \
empower  empty    enable   enact    end      endless  endorse  enemy    \
energy   enforce  engage   engine   enhance  enjoy    enlist   enough   \
enrich   enroll   ensure   enter    entire   entry    envelope episode  \
equal    equip    era      erase    erode    erosion  error    erupt    \
escape   essay    essence  estate   eternal  ethics   evidence evil     \
evoke    evolve   exact    example  excess   exchange excite   exclude  \
excuse   execute  exercise exhaust  exhibit  exile    exist    exit     ";

/// The words from `exotic` to `garment`.
const FROM_EXOTIC: &'static str = "\
exotic   expand   expect   expire   explain  expose   express  extend   \
extra    eye      eyebrow  fabric   face     faculty  fade     faint    \
faith    fall     false    fame     family   famous   fan      fancy    \
fantasy  farm     fashion  fat      fatal    father   fatigue  fault    \
favorite feature  february federal  fee      feed     feel     female   \
fence    festival fetch    fever    few      fiber    fiction  field    \
figure   file     film     filter   final    find     fine     finger   \
finish   fire     firm     first    fiscal   fish     fit      fitness  \
fix      flag     flame    flash    flat     flavor   flee     flight   \
flip     float    flock    floor    flower   fluid    flush    fly      \
foam     focus    fog      foil     fold     follow   food     foot     \
force    forest   forget   fork     fortune  forum    forward  fossil   \
foster   found    fox      fragile  frame    frequent fresh    friend   \
fringe   frog     front    frost    frown    frozen   fruit    fuel     \
fun      funny    furnace  fury     future   gadget   gain     galaxy   \
gallery  game     gap      garage   garbage  garden   garlic   garment  ";

/// The words from `gas` to `husband`.
const FROM_GAS: &'static str = "\
gas      gasp     gate     gather   gauge    gaze     general  genius   \
genre    gentle   genuine  gesture  ghost    giant    gift     giggle   \
ginger   giraffe  girl     give     glad     glance   glare    glass    \
glide    glimpse  globe    gloom    glory    glove    glow     glue     \
goat     goddess  gold     good     goose    gorilla  gospel   gossip   \
govern   gown     grab     grace    grain    grant    grape    grass    \
gravity  great    green    grid     grief    grit     grocery  group    \
grow     grunt    guard    guess    guide    guilt    guitar   gun      \
gym      habit    hair     half     hammer   hamster  hand     happy    \
harbor   hard     harsh    harvest  hat      have     hawk     hazard   \
head     health   heart    heavy    hedgehog height   hello    helmet   \
help     hen      hero     hidden   high     hill     hint     hip      \
hire     history  hobby    hockey   hold     hole     holiday  hollow   \
home     honey    hood     hope     horn     horror   horse    hospital \
host     hotel    hour     hover    hub      huge     human    humble   \
humor    hundred  hungry   hunt     hurdle   hurry    hurt     husband  ";

/// The words from `hybrid` to `lend`.
const FROM_HYBRID: &'static str = "\
hybrid   ice      icon     idea     identify idle     ignore   ill      \
illegal  illness  image    imitate  immense  immune   impact   impose   \
improve  impulse  inch     include  income   increase index    indicate \
indoor   industry infant   inflict  inform   inhale   inherit  initial  \
inject   injury   inmate   inner    innocent input    inquiry  insane   \
insect   inside   inspire  install  intact   interest into     invest   \
invite   involve  iron     island   isolate  issue    item     ivory    \
jacket   jaguar   jar      jazz     jealous  jeans    jelly    jewel    \
job      join     joke     journey  joy      judge    juice    jump     \
jungle   junior   junk     just     kangaroo keen     keep     ketchup  \
key      kick     kid      kidney   kind     kingdom  kiss     kit      \
kitchen  kite     kitten   kiwi     knee     knife    knock    know     \
lab      label    labor    ladder   lady     lake     lamp     language \
laptop   large    later    latin    laugh    laundry  lava     law      \
lawn     lawsuit  layer    lazy     leader   leaf     learn    leave    \
lecture  left     leg      legal    legend   leisure  lemon    lend     ";

/// The words from `length` to `morning`.
const FROM_LENGTH: &'static str = "\
length   lens     leopard  lesson   letter   level    liar     liberty  \
library  license  life     lift     light    like     limb     limit    \
link     lion     liquid   list     little   live     lizard   load     \
loan     lobster  local    lock     logic    lonely   long     loop     \
lottery  loud     lounge   love     loyal    lucky    luggage  lumber   \
lunar    lunch    luxury   lyrics   machine  mad      magic    magnet   \
maid     mail     main     major    make     mammal   man      manage   \
mandate  mango    mansion  manual   maple    marble   march    margin   \
marine   market   marriage mask     mass     master   match    material \
math     matrix   matter   maximum  maze     meadow   mean     measure  \
meat     mechanic medal    media    melody   melt     member   memory   \
mention  menu     mercy    merge    merit    merry    mesh     message  \
metal    method   middle   midnight milk     million  mimic    mind     \
minimum  minor    minute   miracle  mirror   misery   miss     mistake  \
mix      mixed    mixture  mobile   model    modify   mom      moment   \
monitor  monkey   monster  month    moon     moral    more     morning  ";

/// The words from `mosquito` to `paper`.
const FROM_MOSQUITO: &'static str = "\
mosquito mother   motion   motor    mountain mouse    move     movie    \
much     muffin   mule     multiply muscle   museum   mushroom music    \
must     mutual   myself   mystery  myth     naive    name     napkin   \
narrow   nasty    nation   nature   near     neck     need     negative \
neglect  neither  nephew   nerve    nest     net      network  neutral  \
never    news     next     nice     night    noble    noise    nominee  \
noodle   normal   north    nose     notable  note     nothing  notice   \
novel    now      nuclear  number   nurse    nut      oak      obey     \
object   oblige   obscure  observe  obtain   obvious  occur    ocean    \
october  odor     off      offer    office   often    oil      okay     \
old      olive    olympic  omit     once     one      onion    online   \
only     open     opera    opinion  oppose   option   orange   orbit    \
orchard  order    ordinary organ    orient   original orphan   ostrich  \
other    outdoor  outer    output   outside  oval     oven     over     \
own      owner    oxygen   oyster   ozone    pact     paddle   page     \
pair     palace   palm     panda    panel    panic    panther  paper    ";

/// The words from `parade` to `quiz`.
const FROM_PARADE: &'static str = "\
parade   parent   park     parrot   party    pass     patch    path     \
patient  patrol   pattern  pause    pave     payment  peace    peanut   \
pear     peasant  pelican  pen      penalty  pencil   people   pepper   \
perfect  permit   person   pet      phone    photo    phrase   physical \
piano    picnic   picture  piece    pig      pigeon   pill     pilot    \
pink     pioneer  pipe     pistol   pitch    pizza    place    planet   \
plastic  plate    play     please   pledge   pluck    plug     plunge   \
poem     poet     point    polar    pole     police   pond     pony     \
pool     popular  portion  position possible post     potato   pottery  \
poverty  powder   power    practice praise   predict  prefer   prepare  \
present  pretty   prevent  price    pride    primary  print    priority \
prison   private  prize    problem  process  produce  profit   program  \
project  promote  proof    property prosper  protect  proud    provide  \
public   pudding  pull     pulp     pulse    pumpkin  punch    pupil    \
puppy    purchase purity   purpose  purse    push     put      puzzle   \
pyramid  quality  quantum  quarter  question quick    quit     quiz     ";

/// The words from `quote` to `say`.
const FROM_QUOTE: &'static str = "\
quote    rabbit   raccoon  race     rack     radar    radio    rail     \
rain     raise    rally    ramp     ranch    random   range    rapid    \
rare     rate     rather   raven    raw      razor    ready    real     \
reason   rebel    rebuild  recall   receive  recipe   record   recycle  \
reduce   reflect  reform   refuse   region   regret   regular  reject   \
relax    release  relief   rely     remain   remember remind   remove   \
render   renew    rent     reopen   repair   repeat   replace  report   \
require  rescue   resemble resist   resource response result   retire   \
retreat  return   reunion  reveal   review   reward   rhythm   rib      \
ribbon   rice     rich     ride     ridge    rifle    right    rigid    \
ring     riot     ripple   risk     ritual   rival    river    road     \
roast    robot    robust   rocket   romance  roof     rookie   room     \
rose     rotate   rough    round    route    royal    rubber   rude     \
rug      rule     run      runway   rural    sad      saddle   sadness  \
safe     sail     salad    salmon   salon    salt     salute   same     \
sample   sand     satisfy  satoshi  sauce    sausage  save     say      ";

/// The words from `scale` to `soup`.
const FROM_SCALE: &'static str = "\
scale    scan     scare    scatter  scene    scheme   school   science  \
scissors scorpion scout    scrap    screen   script   scrub    sea      \
search   season   seat     second   secret   section  security seed     \
seek     segment  select   sell     seminar  senior   sense    sentence \
series   service  session  settle   setup    seven    shadow   shaft    \
shallow  share    shed     shell    sheriff  shield   shift    shine    \
ship     shiver   shock    shoe     shoot    shop     short    shoulder \
shove    shrimp   shrug    shuffle  shy      sibling  sick     side     \
siege    sight    sign     silent   silk     silly    silver   similar  \
simple   since    sing     siren    sister   situate  six      size     \
skate    sketch   ski      skill    skin     skirt    skull    slab     \
slam     sleep    slender  slice    slide    slight   slim     slogan   \
slot     slow     slush    small    smart    smile    smoke    smooth   \
snack    snake    snap     sniff    snow     soap     soccer   social   \
sock     soda     soft     solar    soldier  solid    solution solve    \
someone  song     soon     sorry    sort     soul     sound    soup     ";

/// The words from `source` to `that`.
const FROM_SOURCE: &'static str = "\
source   south    space    spare    spatial  spawn    speak    special  \
speed    spell    spend    sphere   spice    spider   spike    spin     \
spirit   split    spoil    sponsor  spoon    sport    spot     spray    \
spread   spring   spy      square   squeeze  squirrel stable   stadium  \
staff    stage    stairs   stamp    stand    start    state    stay     \
steak    steel    stem     step     stereo   stick    still    sting    \
stock    stomach  stone    stool    story    stove    strategy street   \
strike   strong   struggle student  stuff    stumble  style    subject  \
submit   subway   success  such     sudden   suffer   sugar    suggest  \
suit     summer   sun      sunny    sunset   super    supply   supreme  \
sure     surface  surge    surprise surround survey   suspect  sustain  \
swallow  swamp    swap     swarm    swear    sweet    swift    swim     \
swing    switch   sword    symbol   symptom  syrup    system   table    \
tackle   tag      tail     talent   talk     tank     tape     target   \
task     taste    tattoo   taxi     teach    team     tell     ten      \
tenant   tennis   tent     term     test     text     thank    that     ";

/// The words from `theme` to `useful`.
const FROM_THEME: &'static str = "\
theme    then     theory   there    they     thing    this     thought  \
three    thrive   throw    thumb    thunder  ticket   tide     tiger    \
tilt     timber   time     tiny     tip      tired    tissue   title    \
toast    tobacco  today    toddler  toe      together toilet   token    \
tomato   tomorrow tone     tongue   tonight  tool     tooth    top      \
topic    topple   torch    tornado  tortoise toss     total    tourist  \
toward   tower    town     toy      track    trade    traffic  tragic   \
train    transfer trap     trash    travel   tray     treat    tree     \
trend    trial    tribe    trick    trigger  trim     trip     trophy   \
trouble  truck    true     truly    trumpet  trust    truth    try      \
tube     tuition  tumble   tuna     tunnel   turkey   turn     turtle   \
twelve   twenty   twice    twin     twist    two      type     typical  \
ugly     umbrella unable   unaware  uncle    uncover  under    undo     \
unfair   unfold   unhappy  uniform  unique   unit     universe unknown  \
unlock   until    unusual  unveil   update   upgrade  uphold   upon     \
upper    upset    urban    urge     usage    use      used     useful   ";

/// The words from `useless` to `zoo`.
const FROM_USELESS: &'static str = "\
useless  usual    utility  vacant   vacuum   vague    valid    valley   \
valve    van      vanish   vapor    various  vast     vault    vehicle  \
velvet   vendor   venture  venue    verb     verify   version  very     \
vessel   veteran  viable   vibrant  vicious  victory  video    view     \
village  vintage  violin   virtual  virus    visa     visit    visual   \
vital    vivid    vocal    voice    void     volcano  volume   vote     \
voyage   wage     wagon    wait     walk     wall     walnut   want     \
warfare  warm     warrior  wash     wasp     waste    water    wave     \
way      wealth   weapon   wear     weasel   weather  web      wedding  \
weekend  weird    welcome  west     wet      whale    what     wheat    \
wheel    when     where    whip     whisper  wide     width    wife     \
wild     will     win      window   wine     wing     wink     winner   \
winter   wire     wisdom   wise     wish     witness  wolf     woman    \
wonder   wood     wool     word     work     world    worry    worth    \
wrap     wreck    wrestle  wrist    write    wrong    yard     year     \
yellow   you      young    youth    zebra    zero     zone     zoo      ";

/// How many words there are.
pub const WORD_COUNT: usize = 2048;

/// The texts of words, in order.
spec fn text(g: int) -> Seq<char> {
    if g == 0 {
        FROM_ABANDON@
    } else if g == 1 {
        FROM_AVOID@
    } else if g == 2 {
        FROM_CACTUS@
    } else if g == 3 {
        FROM_COPY@
    } else if g == 4 {
        FROM_DIVORCE@
    } else if g == 5 {
        FROM_EXOTIC@
    } else if g == 6 {
        FROM_GAS@
    } else if g == 7 {
        FROM_HYBRID@
    } else if g == 8 {
        FROM_LENGTH@
    } else if g == 9 {
        FROM_MOSQUITO@
    } else if g == 10 {
        FROM_PARADE@
    } else if g == 11 {
        FROM_QUOTE@
    } else if g == 12 {
        FROM_SCALE@
    } else if g == 13 {
        FROM_SOURCE@
    } else if g == 14 {
        FROM_THEME@
    } else {
        FROM_USELESS@
    }
}

/// How many of the characters from `at` on are letters, before a blank or the end of the cell.
spec fn letters(s: Seq<char>, at: int, end: int) -> int
    decreases end - at,
{
    if at >= end || s[at] == ' ' {
        0
    } else {
        1 + letters(s, at + 1, end)
    }
}

/// The word with number `i`.
pub closed spec fn word(i: int) -> Seq<char> {
    let s = text(i / 128);
    let at = i % 128 * 9;
    s.subrange(at, at + letters(s, at, at + 9))
}

fn text_at(g: usize) -> (r: &'static str)
    ensures
        r@ == text(g as int),
{
    if g == 0 {
        FROM_ABANDON
    } else if g == 1 {
        FROM_AVOID
    } else if g == 2 {
        FROM_CACTUS
    } else if g == 3 {
        FROM_COPY
    } else if g == 4 {
        FROM_DIVORCE
    } else if g == 5 {
        FROM_EXOTIC
    } else if g == 6 {
        FROM_GAS
    } else if g == 7 {
        FROM_HYBRID
    } else if g == 8 {
        FROM_LENGTH
    } else if g == 9 {
        FROM_MOSQUITO
    } else if g == 10 {
        FROM_PARADE
    } else if g == 11 {
        FROM_QUOTE
    } else if g == 12 {
        FROM_SCALE
    } else if g == 13 {
        FROM_SOURCE
    } else if g == 14 {
        FROM_THEME
    } else {
        FROM_USELESS
    }
}

/// The word with number `i`.
pub(crate) fn word_at(i: usize) -> (r: String)
    requires
        i < WORD_COUNT,
    ensures
        r@ == word(i as int),
{
    let at: usize = i % 128 * 9;
    let cs: Vec<char> = chars_of(text_at(i / 128));
    proof {
        words_ascend(i as int);
    }
    let mut n: usize = 0;
    while n < 9 && cs[at + n] != ' '
        invariant
            n <= 9,
            at + 9 <= cs@.len() <= 1152,
            letters(cs@, at as int, at + 9) == n + letters(cs@, at + n, at + 9),
        decreases 9 - n,
    {
        n = n + 1;
    }
    slice_of(&cs, at, at + n)
}

// ---------------------------------------------------------------------------------------------
// No two words are alike
//
// A proof can look into a literal, but not into a constant, so the texts stand in the proofs too.
// ---------------------------------------------------------------------------------------------

/// A small letter of ASCII.
pub open spec fn is_small(c: char) -> bool {
    'a' <= c <= 'z'
}

/// Three to eight small letters.
pub open spec fn is_word(s: Seq<char>) -> bool {
    3 <= s.len() <= 8 && forall|i: int| 0 <= i < s.len() ==> is_small(#[trigger] s[i])
}

/// A cell holds a word: three small letters, then letters or blanks, and a blank at its end.
spec fn is_cell(s: Seq<char>, at: int) -> bool {
    &&& is_small(s[at]) && is_small(s[at + 1]) && is_small(s[at + 2])
    &&& is_small(s[at + 3]) || s[at + 3] == ' '
    &&& is_small(s[at + 4]) || s[at + 4] == ' '
    &&& is_small(s[at + 5]) || s[at + 5] == ' '
    &&& is_small(s[at + 6]) || s[at + 6] == ' '
    &&& is_small(s[at + 7]) || s[at + 7] == ' '
    &&& s[at + 8] == ' '
}

/// A letter as a number: its place in the alphabet, and 0 for a blank.
spec fn letter(c: char) -> int {
    if c == ' ' {
        0
    } else {
        c as u32 - 96
    }
}

/// The first four letters of a cell as a number in base twenty-seven.
spec fn rank(s: Seq<char>, at: int) -> int {
    letter(s[at]) * 19683 + letter(s[at + 1]) * 729 + letter(s[at + 2]) * 27 + letter(s[at + 3])
}

/// The cells from `at` on hold words, and their ranks ascend.
spec fn ascending(s: Seq<char>, at: int) -> bool
    decreases s.len() - at,
{
    if at < 0 || at + 9 > s.len() {
        true
    } else {
        &&& is_cell(s, at)
        &&& at + 18 <= s.len() ==> rank(s, at) < rank(s, at + 9)
        &&& ascending(s, at + 9)
    }
}

/// A text holds words in order, whose ranks lie between bounds.
#[verifier::opaque]
spec fn in_order(s: Seq<char>, low: int, high: int) -> bool {
    &&& s.len() == 1152
    &&& ascending(s, 0)
    &&& low <= rank(s, 0)
    &&& rank(s, 1143) < high
}

/// The least rank that a word of a text may have.
spec fn least_rank(g: int) -> int {
    if g == 0 {
        0
    } else if g == 1 {
        36135
    } else if g == 2 {
        59879
    } else if g == 3 {
        70441
    } else if g == 4 {
        85902
    } else if g == 5 {
        116336
    } else if g == 6 {
        139023
    } else if g == 7 {
        175761
    } else if g == 8 {
        240226
    } else if g == 9 {
        267344
    } else if g == 10 {
        316144
    } else if g == 11 {
        350345
    } else if g == 12 {
        376203
    } else if g == 13 {
        385497
    } else if g == 14 {
        399640
    } else if g == 15 {
        427341
    } else {
        531441
    }
}

proof fn from_abandon_in_order()
    ensures
        in_order(FROM_ABANDON@, 0, 36135),
{
    reveal(in_order);
    reveal_with_fuel(ascending, 18);
    reveal_strlit("\
abandon  ability  able     about    above    absent   absorb   abstract \
absurd   abuse    access   accident account  accuse   achieve  acid     \
acoustic acquire  across   act      action   actor    actress  actual   \
adapt    add      addict   address  adjust   admit    adult    advance  \
advice   aerobic  affair   afford   afraid   again    age      agent    \
agree    ahead    aim      air      airport  aisle    alarm    album    \
alcohol  alert    alien    all      alley    allow    almost   alone    \
alpha    already  also     alter    always   amateur  amazing  among    \
amount   amused   analyst  anchor   ancient  anger    angle    angry    \
animal   ankle    announce annual   another  answer   antenna  antique  \
anxiety  any      apart    apology  appear   apple    approve  april    \
arch     arctic   area     arena    argue    arm      armed    armor    \
army     around   arrange  arrest   arrive   arrow    art      artefact \
artist   artwork  ask      aspect   assault  asset    assist   assume   \
asthma   athlete  atom     attack   attend   attitude attract  auction  \
audit    august   aunt     author   auto     autumn   average  avocado  ");
    let s = FROM_ABANDON@;
    assert(s.len() == 1152);
    assert(ascending(s, 1008));
    assert(ascending(s, 864));
    assert(ascending(s, 720));
    assert(ascending(s, 576));
    assert(ascending(s, 432));
    assert(ascending(s, 288));
    assert(ascending(s, 144));
    assert(ascending(s, 0));
}

proof fn from_avoid_in_order()
    ensures
        in_order(FROM_AVOID@, 36135, 59879),
{
    reveal(in_order);
    reveal_with_fuel(ascending, 18);
    reveal_strlit("\
avoid    awake    aware    away     awesome  awful    awkward  axis     \
baby     bachelor bacon    badge    bag      balance  balcony  ball     \
bamboo   banana   banner   bar      barely   bargain  barrel   base     \
basic    basket   battle   beach    bean     beauty   because  become   \
beef     before   begin    behave   behind   believe  below    belt     \
bench    benefit  best     betray   better   between  beyond   bicycle  \
bid      bike     bind     biology  bird     birth    bitter   black    \
blade    blame    blanket  blast    bleak    bless    blind    blood    \
blossom  blouse   blue     blur     blush    board    boat     body     \
boil     bomb     bone     bonus    book     boost    border   boring   \
borrow   boss     bottom   bounce   box      boy      bracket  brain    \
brand    brass    brave    bread    breeze   brick    bridge   brief    \
bright   bring    brisk    broccoli broken   bronze   broom    brother  \
brown    brush    bubble   buddy    budget   buffalo  build    bulb     \
bulk     bullet   bundle   bunker   burden   burger   burst    bus      \
business busy     butter   buyer    buzz     cabbage  cabin    cable    ");
    let s = FROM_AVOID@;
    assert(s.len() == 1152);
    assert(ascending(s, 1008));
    assert(ascending(s, 864));
    assert(ascending(s, 720));
    assert(ascending(s, 576));
    assert(ascending(s, 432));
    assert(ascending(s, 288));
    assert(ascending(s, 144));
    assert(ascending(s, 0));
}

proof fn from_cactus_in_order()
    ensures
        in_order(FROM_CACTUS@, 59879, 70441),
{
    reveal(in_order);
    reveal_with_fuel(ascending, 18);
    reveal_strlit("\
cactus   cage     cake     call     calm     camera   camp     can      \
canal    cancel   candy    cannon   canoe    canvas   canyon   capable  \
capital  captain  car      carbon   card     cargo    carpet   carry    \
cart     case     cash     casino   castle   casual   cat      catalog  \
catch    category cattle   caught   cause    caution  cave     ceiling  \
celery   cement   census   century  cereal   certain  chair    chalk    \
champion change   chaos    chapter  charge   chase    chat     cheap    \
check    cheese   chef     cherry   chest    chicken  chief    child    \
chimney  choice   choose   chronic  chuckle  chunk    churn    cigar    \
cinnamon circle   citizen  city     civil    claim    clap     clarify  \
claw     clay     clean    clerk    clever   click    client   cliff    \
climb    clinic   clip     clock    clog     close    cloth    cloud    \
clown    club     clump    cluster  clutch   coach    coast    coconut  \
code     coffee   coil     coin     collect  color    column   combine  \
come     comfort  comic    common   company  concert  conduct  confirm  \
congress connect  consider control  convince cook     cool     copper   ");
    let s = FROM_CACTUS@;
    assert(s.len() == 1152);
    assert(ascending(s, 1008));
    assert(ascending(s, 864));
    assert(ascending(s, 720));
    assert(ascending(s, 576));
    assert(ascending(s, 432));
    assert(ascending(s, 288));
    assert(ascending(s, 144));
    assert(ascending(s, 0));
}

proof fn from_copy_in_order()
    ensures
        in_order(FROM_COPY@, 70441, 85902),
{
    reveal(in_order);
    reveal_with_fuel(ascending, 18);
    reveal_strlit("\
copy     coral    core     corn     correct  cost     cotton   couch    \
country  couple   course   cousin   cover    coyote   crack    cradle   \
craft    cram     crane    crash    crater   crawl    crazy    cream    \
credit   creek    crew     cricket  crime    crisp    critic   crop     \
cross    crouch   crowd    crucial  cruel    cruise   crumble  crunch   \
crush    cry      crystal  cube     culture  cup      cupboard curious  \
current  curtain  curve    cushion  custom   cute     cycle    dad      \
damage   damp     dance    danger   daring   dash     daughter dawn     \
day      deal     debate   debris   decade   december decide   decline  \
decorate decrease deer     defense  define   defy     degree   delay    \
deliver  demand   demise   denial   dentist  deny     depart   depend   \
deposit  depth    deputy   derive   describe desert   design   desk     \
despair  destroy  detail   detect   develop  device   devote   diagram  \
dial     diamond  diary    dice     diesel   diet     differ   digital  \
dignity  dilemma  dinner   dinosaur direct   dirt     disagree discover \
disease  dish     dismiss  disorder display  distance divert   divide   ");
    let s = FROM_COPY@;
    assert(s.len() == 1152);
    assert(ascending(s, 1008));
    assert(ascending(s, 864));
    assert(ascending(s, 720));
    assert(ascending(s, 576));
    assert(ascending(s, 432));
    assert(ascending(s, 288));
    assert(ascending(s, 144));
    assert(ascending(s, 0));
}

proof fn from_divorce_in_order()
    ensures
        in_order(FROM_DIVORCE@, 85902, 116336),
{
    reveal(in_order);
    reveal_with_fuel(ascending, 18);
    reveal_strlit("\
divorce  dizzy    doctor   document dog      doll     dolphin  domain   \
donate   donkey   donor    door     dose     double   dove     draft    \
dragon   drama    drastic  draw     dream    dress    drift    drill    \
drink    drip     drive    drop     drum     dry      duck     dumb     \
dune     during   dust     dutch    duty     dwarf    dynamic  eager    \
eagle    early    earn     earth    easily   east     easy     echo     \
ecology  economy  edge     edit     educate  effort   egg      eight    \
either   elbow    elder    electric elegant  element  elephant elevator \
elite    else     embark   embody   embrace  emerge   emotion  employ   \
empower  empty    enable   enact    end      endless  endorse  enemy    \
energy   enforce  engage   engine   enhance  enjoy    enlist   enough   \
enrich   enroll   ensure   enter    entire   entry    envelope episode  \
equal    equip    era      erase    erode    erosion  error    erupt    \
escape   essay    essence  estate   eternal  ethics   evidence evil     \
evoke    evolve   exact    example  excess   exchange excite   exclude  \
excuse   execute  exercise exhaust  exhibit  exile    exist    exit     ");
    let s = FROM_DIVORCE@;
    assert(s.len() == 1152);
    assert(ascending(s, 1008));
    assert(ascending(s, 864));
    assert(ascending(s, 720));
    assert(ascending(s, 576));
    assert(ascending(s, 432));
    assert(ascending(s, 288));
    assert(ascending(s, 144));
    assert(ascending(s, 0));
}

proof fn from_exotic_in_order()
    ensures
        in_order(FROM_EXOTIC@, 116336, 139023),
{
    reveal(in_order);
    reveal_with_fuel(ascending, 18);
    reveal_strlit("\
exotic   expand   expect   expire   explain  expose   express  extend   \
extra    eye      eyebrow  fabric   face     faculty  fade     faint    \
faith    fall     false    fame     family   famous   fan      fancy    \
fantasy  farm     fashion  fat      fatal    father   fatigue  fault    \
favorite feature  february federal  fee      feed     feel     female   \
fence    festival fetch    fever    few      fiber    fiction  field    \
figure   file     film     filter   final    find     fine     finger   \
finish   fire     firm     first    fiscal   fish     fit      fitness  \
fix      flag     flame    flash    flat     flavor   flee     flight   \
flip     float    flock    floor    flower   fluid    flush    fly      \
foam     focus    fog      foil     fold     follow   food     foot     \
force    forest   forget   fork     fortune  forum    forward  fossil   \
foster   found    fox      fragile  frame    frequent fresh    friend   \
fringe   frog     front    frost    frown    frozen   fruit    fuel     \
fun      funny    furnace  fury     future   gadget   gain     galaxy   \
gallery  game     gap      garage   garbage  garden   garlic   garment  ");
    let s = FROM_EXOTIC@;
    assert(s.len() == 1152);
    assert(ascending(s, 1008));
    assert(ascending(s, 864));
    assert(ascending(s, 720));
    assert(ascending(s, 576));
    assert(ascending(s, 432));
    assert(ascending(s, 288));
    assert(ascending(s, 144));
    assert(ascending(s, 0));
}

proof fn from_gas_in_order()
    ensures
        in_order(FROM_GAS@, 139023, 175761),
{
    reveal(in_order);
    reveal_with_fuel(ascending, 18);
    reveal_strlit("\
gas      gasp     gate     gather   gauge    gaze     general  genius   \
genre    gentle   genuine  gesture  ghost    giant    gift     giggle   \
ginger   giraffe  girl     give     glad     glance   glare    glass    \
glide    glimpse  globe    gloom    glory    glove    glow     glue     \
goat     goddess  gold     good     goose    gorilla  gospel   gossip   \
govern   gown     grab     grace    grain    grant    grape    grass    \
gravity  great    green    grid     grief    grit     grocery  group    \
grow     grunt    guard    guess    guide    guilt    guitar   gun      \
gym      habit    hair     half     hammer   hamster  hand     happy    \
harbor   hard     harsh    harvest  hat      have     hawk     hazard   \
head     health   heart    heavy    hedgehog height   hello    helmet   \
help     hen      hero     hidden   high     hill     hint     hip      \
hire     history  hobby    hockey   hold     hole     holiday  hollow   \
home     honey    hood     hope     horn     horror   horse    hospital \
host     hotel    hour     hover    hub      huge     human    humble   \
humor    hundred  hungry   hunt     hurdle   hurry    hurt     husband  ");
    let s = FROM_GAS@;
    assert(s.len() == 1152);
    assert(ascending(s, 1008));
    assert(ascending(s, 864));
    assert(ascending(s, 720));
    assert(ascending(s, 576));
    assert(ascending(s, 432));
    assert(ascending(s, 288));
    assert(ascending(s, 144));
    assert(ascending(s, 0));
}

proof fn from_hybrid_in_order()
    ensures
        in_order(FROM_HYBRID@, 175761, 240226),
{
    reveal(in_order);
    reveal_with_fuel(ascending, 18);
    reveal_strlit("\
hybrid   ice      icon     idea     identify idle     ignore   ill      \
illegal  illness  image    imitate  immense  immune   impact   impose   \
improve  impulse  inch     include  income   increase index    indicate \
indoor   industry infant   inflict  inform   inhale   inherit  initial  \
inject   injury   inmate   inner    innocent input    inquiry  insane   \
insect   inside   inspire  install  intact   interest into     invest   \
invite   involve  iron     island   isolate  issue    item     ivory    \
jacket   jaguar   jar      jazz     jealous  jeans    jelly    jewel    \
job      join     joke     journey  joy      judge    juice    jump     \
jungle   junior   junk     just     kangaroo keen     keep     ketchup  \
key      kick     kid      kidney   kind     kingdom  kiss     kit      \
kitchen  kite     kitten   kiwi     knee     knife    knock    know     \
lab      label    labor    ladder   lady     lake     lamp     language \
laptop   large    later    latin    laugh    laundry  lava     law      \
lawn     lawsuit  layer    lazy     leader   leaf     learn    leave    \
lecture  left     leg      legal    legend   leisure  lemon    lend     ");
    let s = FROM_HYBRID@;
    assert(s.len() == 1152);
    assert(ascending(s, 1008));
    assert(ascending(s, 864));
    assert(ascending(s, 720));
    assert(ascending(s, 576));
    assert(ascending(s, 432));
    assert(ascending(s, 288));
    assert(ascending(s, 144));
    assert(ascending(s, 0));
}

proof fn from_length_in_order()
    ensures
        in_order(FROM_LENGTH@, 240226, 267344),
{
    reveal(in_order);
    reveal_with_fuel(ascending, 18);
    reveal_strlit("\
length   lens     leopard  lesson   letter   level    liar     liberty  \
library  license  life     lift     light    like     limb     limit    \
link     lion     liquid   list     little   live     lizard   load     \
loan     lobster  local    lock     logic    lonely   long     loop     \
lottery  loud     lounge   love     loyal    lucky    luggage  lumber   \
lunar    lunch    luxury   lyrics   machine  mad      magic    magnet   \
maid     mail     main     major    make     mammal   man      manage   \
mandate  mango    mansion  manual   maple    marble   march    margin   \
marine   market   marriage mask     mass     master   match    material \
math     matrix   matter   maximum  maze     meadow   mean     measure  \
meat     mechanic medal    media    melody   melt     member   memory   \
mention  menu     mercy    merge    merit    merry    mesh     message  \
metal    method   middle   midnight milk     million  mimic    mind     \
minimum  minor    minute   miracle  mirror   misery   miss     mistake  \
mix      mixed    mixture  mobile   model    modify   mom      moment   \
monitor  monkey   monster  month    moon     moral    more     morning  ");
    let s = FROM_LENGTH@;
    assert(s.len() == 1152);
    assert(ascending(s, 1008));
    assert(ascending(s, 864));
    assert(ascending(s, 720));
    assert(ascending(s, 576));
    assert(ascending(s, 432));
    assert(ascending(s, 288));
    assert(ascending(s, 144));
    assert(ascending(s, 0));
}

proof fn from_mosquito_in_order()
    ensures
        in_order(FROM_MOSQUITO@, 267344, 316144),
{
    reveal(in_order);
    reveal_with_fuel(ascending, 18);
    reveal_strlit("\
mosquito mother   motion   motor    mountain mouse    move     movie    \
much     muffin   mule     multiply muscle   museum   mushroom music    \
must     mutual   myself   mystery  myth     naive    name     napkin   \
narrow   nasty    nation   nature   near     neck     need     negative \
neglect  neither  nephew   nerve    nest     net      network  neutral  \
never    news     next     nice     night    noble    noise    nominee  \
noodle   normal   north    nose     notable  note     nothing  notice   \
novel    now      nuclear  number   nurse    nut      oak      obey     \
object   oblige   obscure  observe  obtain   obvious  occur    ocean    \
october  odor     off      offer    office   often    oil      okay     \
old      olive    olympic  omit     once     one      onion    online   \
only     open     opera    opinion  oppose   option   orange   orbit    \
orchard  order    ordinary organ    orient   original orphan   ostrich  \
other    outdoor  outer    output   outside  oval     oven     over     \
own      owner    oxygen   oyster   ozone    pact     paddle   page     \
pair     palace   palm     panda    panel    panic    panther  paper    ");
    let s = FROM_MOSQUITO@;
    assert(s.len() == 1152);
    assert(ascending(s, 1008));
    assert(ascending(s, 864));
    assert(ascending(s, 720));
    assert(ascending(s, 576));
    assert(ascending(s, 432));
    assert(ascending(s, 288));
    assert(ascending(s, 144));
    assert(ascending(s, 0));
}

proof fn from_parade_in_order()
    ensures
        in_order(FROM_PARADE@, 316144, 350345),
{
    reveal(in_order);
    reveal_with_fuel(ascending, 18);
    reveal_strlit("\
parade   parent   park     parrot   party    pass     patch    path     \
patient  patrol   pattern  pause    pave     payment  peace    peanut   \
pear     peasant  pelican  pen      penalty  pencil   people   pepper   \
perfect  permit   person   pet      phone    photo    phrase   physical \
piano    picnic   picture  piece    pig      pigeon   pill     pilot    \
pink     pioneer  pipe     pistol   pitch    pizza    place    planet   \
plastic  plate    play     please   pledge   pluck    plug     plunge   \
poem     poet     point    polar    pole     police   pond     pony     \
pool     popular  portion  position possible post     potato   pottery  \
poverty  powder   power    practice praise   predict  prefer   prepare  \
present  pretty   prevent  price    pride    primary  print    priority \
prison   private  prize    problem  process  produce  profit   program  \
project  promote  proof    property prosper  protect  proud    provide  \
public   pudding  pull     pulp     pulse    pumpkin  punch    pupil    \
puppy    purchase purity   purpose  purse    push     put      puzzle   \
pyramid  quality  quantum  quarter  question quick    quit     quiz     ");
    let s = FROM_PARADE@;
    assert(s.len() == 1152);
    assert(ascending(s, 1008));
    assert(ascending(s, 864));
    assert(ascending(s, 720));
    assert(ascending(s, 576));
    assert(ascending(s, 432));
    assert(ascending(s, 288));
    assert(ascending(s, 144));
    assert(ascending(s, 0));
}

proof fn from_quote_in_order()
    ensures
        in_order(FROM_QUOTE@, 350345, 376203),
{
    reveal(in_order);
    reveal_with_fuel(ascending, 18);
    reveal_strlit("\
quote    rabbit   raccoon  race     rack     radar    radio    rail     \
rain     raise    rally    ramp     ranch    random   range    rapid    \
rare     rate     rather   raven    raw      razor    ready    real     \
reason   rebel    rebuild  recall   receive  recipe   record   recycle  \
reduce   reflect  reform   refuse   region   regret   regular  reject   \
relax    release  relief   rely     remain   remember remind   remove   \
render   renew    rent     reopen   repair   repeat   replace  report   \
require  rescue   resemble resist   resource response result   retire   \
retreat  return   reunion  reveal   review   reward   rhythm   rib      \
ribbon   rice     rich     ride     ridge    rifle    right    rigid    \
ring     riot     ripple   risk     ritual   rival    river    road     \
roast    robot    robust   rocket   romance  roof     rookie   room     \
rose     rotate   rough    round    route    royal    rubber   rude     \
rug      rule     run      runway   rural    sad      saddle   sadness  \
safe     sail     salad    salmon   salon    salt     salute   same     \
sample   sand     satisfy  satoshi  sauce    sausage  save     say      ");
    let s = FROM_QUOTE@;
    assert(s.len() == 1152);
    assert(ascending(s, 1008));
    assert(ascending(s, 864));
    assert(ascending(s, 720));
    assert(ascending(s, 576));
    assert(ascending(s, 432));
    assert(ascending(s, 288));
    assert(ascending(s, 144));
    assert(ascending(s, 0));
}

proof fn from_scale_in_order()
    ensures
        in_order(FROM_SCALE@, 376203, 385497),
{
    reveal(in_order);
    reveal_with_fuel(ascending, 18);
    reveal_strlit("\
scale    scan     scare    scatter  scene    scheme   school   science  \
scissors scorpion scout    scrap    screen   script   scrub    sea      \
search   season   seat     second   secret   section  security seed     \
seek     segment  select   sell     seminar  senior   sense    sentence \
series   service  session  settle   setup    seven    shadow   shaft    \
shallow  share    shed     shell    sheriff  shield   shift    shine    \
ship     shiver   shock    shoe     shoot    shop     short    shoulder \
shove    shrimp   shrug    shuffle  shy      sibling  sick     side     \
siege    sight    sign     silent   silk     silly    silver   similar  \
simple   since    sing     siren    sister   situate  six      size     \
skate    sketch   ski      skill    skin     skirt    skull    slab     \
slam     sleep    slender  slice    slide    slight   slim     slogan   \
slot     slow     slush    small    smart    smile    smoke    smooth   \
snack    snake    snap     sniff    snow     soap     soccer   social   \
sock     soda     soft     solar    soldier  solid    solution solve    \
someone  song     soon     sorry    sort     soul     sound    soup     ");
    let s = FROM_SCALE@;
    assert(s.len() == 1152);
    assert(ascending(s, 1008));
    assert(ascending(s, 864));
    assert(ascending(s, 720));
    assert(ascending(s, 576));
    assert(ascending(s, 432));
    assert(ascending(s, 288));
    assert(ascending(s, 144));
    assert(ascending(s, 0));
}

proof fn from_source_in_order()
    ensures
        in_order(FROM_SOURCE@, 385497, 399640),
{
    reveal(in_order);
    reveal_with_fuel(ascending, 18);
    reveal_strlit("\
source   south    space    spare    spatial  spawn    speak    special  \
speed    spell    spend    sphere   spice    spider   spike    spin     \
spirit   split    spoil    sponsor  spoon    sport    spot     spray    \
spread   spring   spy      square   squeeze  squirrel stable   stadium  \
staff    stage    stairs   stamp    stand    start    state    stay     \
steak    steel    stem     step     stereo   stick    still    sting    \
stock    stomach  stone    stool    story    stove    strategy street   \
strike   strong   struggle student  stuff    stumble  style    subject  \
submit   subway   success  such     sudden   suffer   sugar    suggest  \
suit     summer   sun      sunny    sunset   super    supply   supreme  \
sure     surface  surge    surprise surround survey   suspect  sustain  \
swallow  swamp    swap     swarm    swear    sweet    swift    swim     \
swing    switch   sword    symbol   symptom  syrup    system   table    \
tackle   tag      tail     talent   talk     tank     tape     target   \
task     taste    tattoo   taxi     teach    team     tell     ten      \
tenant   tennis   tent     term     test     text     thank    that     ");
    let s = FROM_SOURCE@;
    assert(s.len() == 1152);
    assert(ascending(s, 1008));
    assert(ascending(s, 864));
    assert(ascending(s, 720));
    assert(ascending(s, 576));
    assert(ascending(s, 432));
    assert(ascending(s, 288));
    assert(ascending(s, 144));
    assert(ascending(s, 0));
}

proof fn from_theme_in_order()
    ensures
        in_order(FROM_THEME@, 399640, 427341),
{
    reveal(in_order);
    reveal_with_fuel(ascending, 18);
    reveal_strlit("\
theme    then     theory   there    they     thing    this     thought  \
three    thrive   throw    thumb    thunder  ticket   tide     tiger    \
tilt     timber   time     tiny     tip      tired    tissue   title    \
toast    tobacco  today    toddler  toe      together toilet   token    \
tomato   tomorrow tone     tongue   tonight  tool     tooth    top      \
topic    topple   torch    tornado  tortoise toss     total    tourist  \
toward   tower    town     toy      track    trade    traffic  tragic   \
train    transfer trap     trash    travel   tray     treat    tree     \
trend    trial    tribe    trick    trigger  trim     trip     trophy   \
trouble  truck    true     truly    trumpet  trust    truth    try      \
tube     tuition  tumble   tuna     tunnel   turkey   turn     turtle   \
twelve   twenty   twice    twin     twist    two      type     typical  \
ugly     umbrella unable   unaware  uncle    uncover  under    undo     \
unfair   unfold   unhappy  uniform  unique   unit     universe unknown  \
unlock   until    unusual  unveil   update   upgrade  uphold   upon     \
upper    upset    urban    urge     usage    use      used     useful   ");
    let s = FROM_THEME@;
    assert(s.len() == 1152);
    assert(ascending(s, 1008));
    assert(ascending(s, 864));
    assert(ascending(s, 720));
    assert(ascending(s, 576));
    assert(ascending(s, 432));
    assert(ascending(s, 288));
    assert(ascending(s, 144));
    assert(ascending(s, 0));
}

proof fn from_useless_in_order()
    ensures
        in_order(FROM_USELESS@, 427341, 531441),
{
    reveal(in_order);
    reveal_with_fuel(ascending, 18);
    reveal_strlit("\
useless  usual    utility  vacant   vacuum   vague    valid    valley   \
valve    van      vanish   vapor    various  vast     vault    vehicle  \
velvet   vendor   venture  venue    verb     verify   version  very     \
vessel   veteran  viable   vibrant  vicious  victory  video    view     \
village  vintage  violin   virtual  virus    visa     visit    visual   \
vital    vivid    vocal    voice    void     volcano  volume   vote     \
voyage   wage     wagon    wait     walk     wall     walnut   want     \
warfare  warm     warrior  wash     wasp     waste    water    wave     \
way      wealth   weapon   wear     weasel   weather  web      wedding  \
weekend  weird    welcome  west     wet      whale    what     wheat    \
wheel    when     where    whip     whisper  wide     width    wife     \
wild     will     win      window   wine     wing     wink     winner   \
winter   wire     wisdom   wise     wish     witness  wolf     woman    \
wonder   wood     wool     word     work     world    worry    worth    \
wrap     wreck    wrestle  wrist    write    wrong    yard     year     \
yellow   you      young    youth    zebra    zero     zone     zoo      ");
    let s = FROM_USELESS@;
    assert(s.len() == 1152);
    assert(ascending(s, 1008));
    assert(ascending(s, 864));
    assert(ascending(s, 720));
    assert(ascending(s, 576));
    assert(ascending(s, 432));
    assert(ascending(s, 288));
    assert(ascending(s, 144));
    assert(ascending(s, 0));
}

proof fn text_in_order(g: int)
    requires
        0 <= g < 16,
    ensures
        in_order(text(g), least_rank(g), least_rank(g + 1)),
{
    if g == 0 {
        from_abandon_in_order();
    } else if g == 1 {
        from_avoid_in_order();
    } else if g == 2 {
        from_cactus_in_order();
    } else if g == 3 {
        from_copy_in_order();
    } else if g == 4 {
        from_divorce_in_order();
    } else if g == 5 {
        from_exotic_in_order();
    } else if g == 6 {
        from_gas_in_order();
    } else if g == 7 {
        from_hybrid_in_order();
    } else if g == 8 {
        from_length_in_order();
    } else if g == 9 {
        from_mosquito_in_order();
    } else if g == 10 {
        from_parade_in_order();
    } else if g == 11 {
        from_quote_in_order();
    } else if g == 12 {
        from_scale_in_order();
    } else if g == 13 {
        from_source_in_order();
    } else if g == 14 {
        from_theme_in_order();
    } else {
        from_useless_in_order();
    }
}

proof fn cells_ascend(s: Seq<char>, j: int, k: int)
    requires
        0 <= j <= k,
        k * 9 + 9 <= s.len(),
        ascending(s, j * 9),
    ensures
        is_cell(s, k * 9),
        k * 9 + 18 <= s.len() ==> rank(s, k * 9) < rank(s, k * 9 + 9),
    decreases k - j,
{
    if j < k {
        cells_ascend(s, j + 1, k);
    }
}

/// The rank of the word with number `i`.
spec fn rank_of(i: int) -> int {
    rank(text(i / 128), i % 128 * 9)
}

/// Every cell holds a word, which ranks before the next.
proof fn words_ascend(i: int)
    requires
        0 <= i < 2048,
    ensures
        text(i / 128).len() == 1152,
        is_cell(text(i / 128), i % 128 * 9),
        i < 2047 ==> rank_of(i) < rank_of(i + 1),
{
    let g = i / 128;
    let j = i % 128;
    reveal(in_order);
    text_in_order(g);
    cells_ascend(text(g), 0, j);
    if j < 127 {
        assert((i + 1) / 128 == g && (i + 1) % 128 == j + 1);
    } else if i < 2047 {
        assert((i + 1) / 128 == g + 1 && (i + 1) % 128 == 0);
        text_in_order(g + 1);
    }
}

proof fn later_words_rank_higher(i: int, k: int)
    requires
        0 <= i < k < 2048,
    ensures
        rank_of(i) < rank_of(k),
    decreases k - i,
{
    words_ascend(k - 1);
    if i < k - 1 {
        later_words_rank_higher(i, k - 1);
    }
}

/// The letters of a cell are those before its first blank.
proof fn letters_end_at_a_blank(s: Seq<char>, at: int, end: int)
    requires
        0 <= at <= end <= s.len(),
        forall|i: int| at <= i < end ==> is_small(#[trigger] s[i]) || s[i] == ' ',
        at < end ==> s[end - 1] == ' ',
    ensures
        0 <= letters(s, at, end) <= end - at,
        at < end ==> letters(s, at, end) < end - at && s[at + letters(s, at, end)] == ' ',
        forall|i: int| at <= i < at + letters(s, at, end) ==> is_small(#[trigger] s[i]),
    decreases end - at,
{
    if at < end && s[at] != ' ' {
        letters_end_at_a_blank(s, at + 1, end);
    }
}

/// The rank of a word, as that of its cell.
spec fn word_rank(w: Seq<char>) -> int {
    letter(w[0]) * 19683 + letter(w[1]) * 729 + letter(w[2]) * 27 + if w.len() > 3 {
        letter(w[3])
    } else {
        0
    }
}

proof fn word_in_its_cell(i: int)
    requires
        0 <= i < 2048,
    ensures
        is_word(word(i)),
        word_rank(word(i)) == rank_of(i),
{
    words_ascend(i);
    let s = text(i / 128);
    let at = i % 128 * 9;
    assert forall|k: int| at <= k < at + 9 implies is_small(#[trigger] s[k]) || s[k] == ' ' by {
        let d = k - at;
        assert(k == at + d);
        assert(d == 0 || d == 1 || d == 2 || d == 3 || d == 4 || d == 5 || d == 6 || d == 7 || d
            == 8);
    }
    letters_end_at_a_blank(s, at, at + 9);
    let n = letters(s, at, at + 9);
    assert(n >= 3) by {
        reveal_with_fuel(letters, 4);
        letters_end_at_a_blank(s, at + 3, at + 9);
    }
    assert forall|k: int| 0 <= k < n implies is_small(#[trigger] word(i)[k]) by {
        assert(word(i)[k] == s[at + k]);
    }
}

/// Each of the words consists of three to eight small letters.
pub proof fn words_are_words(i: int)
    requires
        0 <= i < WORD_COUNT,
    ensures
        is_word(word(i)),
{
    word_in_its_cell(i);
}

/// No two words are alike.
pub proof fn words_differ(i: int, k: int)
    requires
        0 <= i < WORD_COUNT,
        0 <= k < WORD_COUNT,
        word(i) == word(k),
    ensures
        i == k,
{
    word_in_its_cell(i);
    word_in_its_cell(k);
    if i < k {
        later_words_rank_higher(i, k);
    } else if k < i {
        later_words_rank_higher(k, i);
    }
}

} // verus!
