//! The fixed parameter tables of the reference instantiation: the
//! round-constant table and the mixing matrix, reproduced bit-exact.
//!
//! Each constant is written as eight base-2^32 limbs and rebuilt through the
//! verified `felt_from_limbs`; the specification-level tables below give the
//! same constants as decimal integers, so the builders' contracts pin every
//! table entry to its canonical value.

use vstd::prelude::*;
use crate::field::Felt;
use crate::field::felt_from_limbs;
use crate::field::state_vals;

verus! {

/// The specification-level value table of a constant table: each entry's
/// canonical integer value.
pub open spec fn table_vals(t: Seq<Vec<Felt>>) -> Seq<Seq<nat>> {
    t.map_values(|row: Vec<Felt>| state_vals(row@))
}

/// The round-constant rows of the reference instantiation, as canonical integers.
pub open spec fn spec_reference_ark() -> Seq<Seq<nat>> {
    seq![
        seq![
            44595993092652566245296379427906271087754779418564084732265552598173323099784nat,
            23298463296221002559050231199021122673158929708101049474262017406235785365706nat,
            34212491019164671611180318500074499609633402631511849759183986060951187784466nat,
        ],
        seq![
            19098051134080182375553680073525644187968170656591203562523489333616681350367nat,
            7027675418691353855077049716619550622043312043660992344940177187528247727783nat,
            47642753235356257928619065424282314733361764347085604019867862722762702755609nat,
        ],
        seq![
            24281836129477728386327945482863886685457469794572168729834072693507088619997nat,
            12624893078331920791384400430193929292743809612452779381349824703573823883410nat,
            22654862987689323504199204643771547606936339944127455903448909090318619188561nat,
        ],
        seq![
            27229172992560143399715985732065737093562061782414043625359531774550940662372nat,
            13224952063922250960936823741448973692264041750100990569445192064567307041002nat,
            40380869235216625717296601204704413215735530626882135230693823362552484855508nat,
        ],
        seq![
            4245751157938905689397184705633683893932492370323323780371834663438472308145nat,
            8252156875535418429533049587170755750275631534314711502253775796882240991261nat,
            32910829712934971129644416249914075073083903821282503505466324428991624789936nat,
        ],
        seq![
            49412601297460128335642438246716127241669915737656789613664349252868389975962nat,
            841661305510340459373323516098909074520942972558284146843779636353111592117nat,
            37926489020263024391336570420006226544461516787280929232555625742588667303947nat,
        ],
        seq![
            18433043696013996573551852847056868761017170818820490351056924728720017242180nat,
            45376910275288438312773930242803223482318753992595269901397542214841496212310nat,
            47854349410014339708332226068958253098964727682486278458389508597930796651514nat,
        ],
        seq![
            32638426693771251366613055506166587312642876874690861030672730491779486904360nat,
            19105439281696418043426755774110765432959446684037017837894045255490581318047nat,
            13484299981373196201166722380389594773562113262309564134825386266765751213853nat,
        ],
        seq![
            63360321133852659797114062808297090090814531427710842859827725871241144161nat,
            42427543035537409467993338717379268954936885184662765745740070438835506287271nat,
            149101987103211771991327927827692640556911620408176100290586418839323044234nat,
        ],
        seq![
            8341764062226826803887898710015561861526081583071950015446833446251359696930nat,
            45635980415044299013530304465786867101223925975971912073759959440335364441441nat,
            49833261156201520743834327917353893365097424877680239796845398698940689734850nat,
        ],
        seq![
            26764715016591436228000634284249890185894507497739511725029482580508707525029nat,
            25054530812095491217523557726611612265064441619646263299990388543372685322499nat,
            47654590955096246997622155031169641628093104787883934397920286718814889326452nat,
        ],
        seq![
            16463825890556752307085325855351334996898686633642574805918056141310194135796nat,
            17473961341633494489168064889016732306117097771640351649096482400214968053040nat,
            49914603434867854893558366922996753035832008639512305549839666311012232077468nat,
        ],
        seq![
            17122578514152308432111470949473865420090463026624297565504381163777697818362nat,
            34870689836420861427379101859113225049736283485335674111421609473028315711541nat,
            4622082908476410083286670201138165773322781640914243047922441301693321472984nat,
        ],
        seq![
            6079244375752010013798561155333454682564824861645642293573415833483620500976nat,
            2635090520059500019661864086615522409798872905401305311748231832709078452746nat,
            19070766579582338321241892986615538320421651429118757507174186491084617237586nat,
        ],
        seq![
            12622420533971517050761060317049369208980632120901481436392835424625664738526nat,
            8965101225657199137904506150282256568170501907667138404080397024857524386266nat,
            27085091008069524593196374148553176565775450537072498305327481366756159319838nat,
        ],
        seq![
            45929056591150668409624595495643698205830429971690813312608217341940499221218nat,
            50361689160518167880500080025023064746137161030119436080957023803101861300846nat,
            6722586346537620732668048024627882970582133613352245923413730968378696371065nat,
        ],
        seq![
            7340485916200743279276570085958556798507770452421357119145466906520506506342nat,
            25946733168219652706630789514519162148860502996914241011500280690204368174083nat,
            9962367658743163006517635070396368828381757404628822422306438427554934645464nat,
        ],
        seq![
            7221669722700687417346373353960536661883467014204005276831020252277657076044nat,
            21487980358388383563030903293359140836304488103090321183948009095669344637431nat,
            44389482047246878765773958430749333249729101516826571588063797358040130313157nat,
        ],
        seq![
            32887270862917330820874162842519225370447850172085449103568878409533683733185nat,
            15453393396765207016379045014101989306173462885430532298601655955681532648226nat,
            5478929644476681096437469958231489102974161353940993351588559414552523375472nat,
        ],
        seq![
            41981370411247590312677561209178363054744730805951096631186178388981705304138nat,
            3474136981645476955784428843999869229067282976757744542648188369810577298585nat,
            26251477770740399889956219915654371915771248171098220204692699710414817081869nat,
        ],
        seq![
            51916561889718854106125837319509539220778634838409949714061033196765117231752nat,
            25355145802812435959748831835587713214179184608408449220418373832038339021974nat,
            31950684570730625275416731570246297947385359051792335826965013637877068017530nat,
        ],
        seq![
            40966378914980473680181850710703295982197782082391794594149984057481543436879nat,
            1141315130963422417761731263662398620858625339733452795772225916965481730059nat,
            9812100862165422922235757591915383485338044715409891361026651619010947646011nat,
        ],
        seq![
            25276091996614379065765602410190790163396484122487585763380676888280427744737nat,
            18512694312063606403196469408971540495273694846641903978723927656359350642619nat,
            5791584766415439694303685437881192048262049244830616851865505314899699012588nat,
        ],
        seq![
            34501536331706470927069149344450300773777486993504673779438188495686129846168nat,
            10797737565565774079718466476236831116206064650762676383469703413649447678207nat,
            42599392747310354323136214835734307933597896695637215127297036595538235868368nat,
        ],
        seq![
            1336670998775417133322626564820911986969949054454812685145275612519924150700nat,
            2630141283339761901081411552890260088516693208402906795133548756078952896770nat,
            5206688943117414740600380377278238268309952400341418217132724749372435975215nat,
        ],
        seq![
            10739264253827005683370721104077252560524362323422172665530191908848354339715nat,
            48010640624945719826344492755710886355389194986527731603685956726907395779674nat,
            47880724693177306044229143357252697148359033158394459365791331000715957339701nat,
        ],
        seq![
            51658938856669444737833983076793759752280196674149218924101718974926964118996nat,
            27558055650076329657496888512074319504342606463881203707330358472954748913263nat,
            38886981777859313701520424626728402175860609948757992393598285291689196608037nat,
        ],
        seq![
            17152756165118461969542990684402410297675979513690903033350206658079448802479nat,
            43766946932033687220387514221943418338304186408056458476301583041390483707207nat,
            24324495647041812436929170644873622904287038078113808264580396461953421400343nat,
        ],
        seq![
            6935839211798937659784055008131602708847374430164859822530563797964932598700nat,
            42126767398190942911395299419182514513368023621144776598842282267908712110039nat,
            5702364486091252903915715761606014714345316580946072019346660327857498603375nat,
        ],
        seq![
            28184981699552917714085740963279595942132561155181044254318202220270242523053nat,
            27078204494010940048327822707224393686245007379331357330801926151074766130790nat,
            5004172841233947987988267535285080365124079140142987718231874743202918551203nat,
        ],
        seq![
            7974360962120296064882769128577382489451060235999590492215336103105134345602nat,
            48062035869818179910046292951628308709251170031813126950740044942870578526376nat,
            26361151154829600651603985995297072258262605598910254660032612019129606811983nat,
        ],
        seq![
            46973867849986280770641828877435510444176572688208439836496241838832695841519nat,
            1219439673853113792340300173186247996249367102884530407862469123523013083971nat,
            8063356002935671186275773257019749639571745240775941450161086349727882957042nat,
        ],
        seq![
            8815571992701260640209942886673939234666734294275300852283020522390608544536nat,
            36384568984671043678320545346945893232044626942887414733675890845013312931948nat,
            7493936589040764830842760521372106574503511314427857201860148571929278344956nat,
        ],
        seq![
            26516538878265871822073279450474977673130300973488209984756372331392531193948nat,
            3872858659373466814413243601289105962248870842202907364656526273784217311104nat,
            8291822807524000248589997648893671538524566700364221355689839490238724479848nat,
        ],
        seq![
            32842548776827046388198955038089826231531188946525483251252938248379132381248nat,
            10749428410907700061565796335489079278748501945557710351216806276547834974736nat,
            43342287917341177925402357903832370099402579088513884654598017447701677948416nat,
        ],
        seq![
            29658571352070370791360499299098360881857072189358092237807807261478461425147nat,
            7805182565862454238315452208989152534554369855020544477885853141626690738363nat,
            30699555847500141715826240743138908521140760599479365867708690318477369178275nat,
        ],
        seq![
            1231951350103545216624376889222508148537733140742167414518514908719103925687nat,
            24784260089125933876714702247471508077514206350883487938806451152907502751770nat,
            36563542611079418454711392295126742705798573252480028863133394504154697924536nat,
        ],
    ]
}

/// The mixing-matrix rows of the reference instantiation, as canonical integers.
pub open spec fn spec_reference_mds() -> Seq<Seq<nat>> {
    seq![
        seq![
            43228725308391137369947362226390319299014033584574058394339561338097152657858nat,
            20729134655727743386784826341366384914431326428651109729494295849276339718592nat,
            14275792724825301816674509766636153429127896752891673527373812580216824074377nat,
        ],
        seq![
            3039440043015681380498693766234886011876841428799441709991632635031851609481nat,
            6678863357926068615342013496680930722082156498064457711885464611323928471101nat,
            37355038393562575053091209735467454314247378274125943833499651442997254948957nat,
        ],
        seq![
            26481612700543967643159862864328231943993263806649000633819754663276818191580nat,
            30103264397473155564098369644643015994024192377175707604277831692111219371047nat,
            5712721806190262694719203887224391960978962995663881615739647362444059585747nat,
        ],
    ]
}

/// Builds the round-constant table of the reference instantiation.
pub fn reference_ark() -> (t: Vec<Vec<Felt>>)
    ensures
        t@.len() == 37,
        forall|r: int| 0 <= r < t@.len() ==> (#[trigger] t@[r])@.len() == 3,
        table_vals(t@) == spec_reference_ark(),
{
    let mut t: Vec<Vec<Felt>> = Vec::new();
    let mut row: Vec<Felt> = Vec::new();
    row.push(felt_from_limbs(0x62987006, 0xc0b7ee95, 0x6a3baf1, 0x4c8858b4, 0x91d086d6, 0x810b5248, 0x80b7fd8f, 0xac77fe88));
    row.push(felt_from_limbs(0x33827681, 0x995d5b5f, 0xffc8397a, 0x3d00425a, 0x3da43f76, 0xabf28a64, 0xe4ab1a22, 0xf27508ca));
    row.push(felt_from_limbs(0x4ba3956d, 0x2fad4569, 0xe7f760a2, 0x277dc7cb, 0x2cac75dc, 0x279b2d68, 0x7a0dbe17, 0x704a8312));
    proof { assert(state_vals(row@) =~= spec_reference_ark()[0]); }
    t.push(row);
    let mut row: Vec<Felt> = Vec::new();
    row.push(felt_from_limbs(0x2a391d27, 0x53a4a3dc, 0xbe026a7a, 0x17a8cf53, 0xd55ed4f6, 0x26a475c7, 0x882031b0, 0xe67ef4df));
    row.push(felt_from_limbs(0xf8985f8, 0xe1650514, 0x5bd6df55, 0x18cfd41f, 0x2d327fcc, 0x948d772c, 0xadfe17ba, 0xca05d6a7));
    row.push(felt_from_limbs(0x6954d7bd, 0x5cd79925, 0xed128d90, 0x6b923a3e, 0x7324c665, 0xb458801e, 0x142dcf35, 0x34169719));
    proof { assert(state_vals(row@) =~= spec_reference_ark()[1]); }
    t.push(row);
    let mut row: Vec<Felt> = Vec::new();
    row.push(felt_from_limbs(0x35af083f, 0x36e4c78f, 0x45436173, 0x3f0883c5, 0x847cd2c5, 0xd9d4cb8b, 0x465e60e, 0xdce699dd));
    row.push(felt_from_limbs(0x1be96fae, 0x94465446, 0x21c0676c, 0xee117a9f, 0xd97bd1f6, 0x2ff9ef1b, 0xc77e709c, 0xfd388892));
    row.push(felt_from_limbs(0x321632b3, 0x5e829d0c, 0x68ed209e, 0x28684459, 0x585dc0f3, 0x9a018e45, 0xe3958447, 0x7a6b1d51));
    proof { assert(state_vals(row@) =~= spec_reference_ark()[2]); }
    t.push(row);
    let mut row: Vec<Felt> = Vec::new();
    row.push(felt_from_limbs(0x3c332a6f, 0x6bde2f9f, 0x8e79ce13, 0xf47ad1cd, 0xeebd8870, 0xfd13a36b, 0x613b9721, 0xf6453a64));
    row.push(felt_from_limbs(0x1d3d0ebf, 0x61664c9b, 0x5310a04c, 0x4dec2e7e, 0x4b9a813a, 0xaeff60d6, 0xc9e8caeb, 0x5cba78ea));
    row.push(felt_from_limbs(0x5946c315, 0x5faac9e4, 0x27ac13c3, 0x7e60b525, 0x18c5559c, 0x928638ef, 0x1bfc2d16, 0xeaabfed4));
    proof { assert(state_vals(row@) =~= spec_reference_ark()[3]); }
    t.push(row);
    let mut row: Vec<Felt> = Vec::new();
    row.push(felt_from_limbs(0x963028f, 0x17d8d455, 0x742944c2, 0xe315cca6, 0x32d7075e, 0xf23a1d71, 0x98147e6a, 0xdd91e5b1));
    row.push(felt_from_limbs(0x123e8e26, 0x6448b94a, 0x43eec72f, 0xda8fa703, 0x67cd6538, 0xd77fd328, 0x2b5794dc, 0xa268701d));
    row.push(felt_from_limbs(0x48c2de97, 0xf456a9cb, 0x119f48f, 0x3ab77cb9, 0xe07612a8, 0x9dd74d96, 0x92864c01, 0xf54a3fb0));
    proof { assert(state_vals(row@) =~= spec_reference_ark()[4]); }
    t.push(row);
    let mut row: Vec<Felt> = Vec::new();
    row.push(felt_from_limbs(0x6d3e8a8e, 0x8a404d2d, 0x3af2bf3c, 0x3e420ea, 0x5a465939, 0xd04b6c72, 0xe2da084e, 0x5aabb79a));
    row.push(felt_from_limbs(0x1dc5d08, 0xe9754442, 0xe897751d, 0x2e5c8414, 0xa782a5c8, 0x1381535e, 0xf4f9adaa, 0x62be8cb5));
    row.push(felt_from_limbs(0x53d9a1cf, 0x7ab9047c, 0x115fa68d, 0x9585cdab, 0x14630dea, 0x975b0e97, 0x9939c46d, 0x1625180b));
    proof { assert(state_vals(row@) =~= spec_reference_ark()[5]); }
    t.push(row);
    let mut row: Vec<Felt> = Vec::new();
    row.push(felt_from_limbs(0x28c0bba6, 0x880d2ebd, 0x6bf50886, 0x14b9684f, 0xf2526a20, 0xf9167043, 0x5dc6f519, 0xbb7ab844));
    row.push(felt_from_limbs(0x64526bca, 0xec43e9b7, 0xd708dd07, 0x234c1b2d, 0xc1a62037, 0x41decd72, 0x843849cd, 0xf879356));
    row.push(felt_from_limbs(0x69cc9a17, 0xb00d36e4, 0xd81efaea, 0x5a75a434, 0xbef44d92, 0xedc6d5b0, 0xbfe1ec7f, 0x1d613fa));
    proof { assert(state_vals(row@) =~= spec_reference_ark()[6]); }
    t.push(row);
    let mut row: Vec<Felt> = Vec::new();
    row.push(felt_from_limbs(0x4828b1e2, 0x69b84cd9, 0x12aa8cdb, 0xead0bc1c, 0xe1eb7284, 0xe2b28ed9, 0xbc7b4a4, 0xfde8f028));
    row.push(felt_from_limbs(0x2a3d4ba0, 0xf3d948a7, 0xea604c7a, 0xf2391e53, 0xb85bc168, 0xcb95ff59, 0xbb724dc8, 0xa994499f));
    row.push(felt_from_limbs(0x1dcfd7e4, 0x4946dad9, 0xb2618213, 0xb0d1bf4a, 0x2269bed2, 0xdc0d4dbf, 0x59e285ee, 0xe627df1d));
    proof { assert(state_vals(row@) =~= spec_reference_ark()[7]); }
    t.push(row);
    let mut row: Vec<Felt> = Vec::new();
    row.push(felt_from_limbs(0x23dc54, 0xedb83753, 0xf08a21a9, 0x3a6523b1, 0x2787caa5, 0x9f19f49d, 0xc31955de, 0x8386a761));
    row.push(felt_from_limbs(0x5dcd236b, 0xdc15b5fc, 0x83e90bab, 0x8ae37f8a, 0xab40efae, 0x6fa9cd91, 0x9b3248ee, 0x326e92a7));
    row.push(felt_from_limbs(0x546384, 0x1390e22d, 0x60c94641, 0x8bf0e582, 0x2bd99908, 0x4e30688e, 0x741a90bb, 0xd53a698a));
    proof { assert(state_vals(row@) =~= spec_reference_ark()[8]); }
    t.push(row);
    let mut row: Vec<Felt> = Vec::new();
    row.push(felt_from_limbs(0x12714569, 0xac04f047, 0x4b8e6f03, 0xd809c169, 0xd781fc9e, 0xe51bd8b0, 0x8226e742, 0x6144f822));
    row.push(felt_from_limbs(0x64e50cb0, 0x7b3873f2, 0x8dc88f05, 0x393d9d03, 0x153ca4c0, 0x2172dd1d, 0x7fc77d45, 0xe1b04561));
    row.push(felt_from_limbs(0x6e2ca053, 0xe4da10a5, 0x7b430e53, 0x238d2bab, 0x1d9b499c, 0x35f375d7, 0xd0b32e11, 0x89b6dcc2));
    proof { assert(state_vals(row@) =~= spec_reference_ark()[9]); }
    t.push(row);
    let mut row: Vec<Felt> = Vec::new();
    row.push(felt_from_limbs(0x3b2c4ab7, 0x9bffa2d9, 0x77b9a7d8, 0xaeafe41e, 0xc60fe50d, 0xae19d66, 0x951bff3e, 0x3d7e11a5));
    row.push(felt_from_limbs(0x37645ca5, 0xe87a9ff7, 0x6a82fe5b, 0xb90807f4, 0x4050ac92, 0xca52f5c7, 0x98935cf4, 0x7d55a903));
    row.push(felt_from_limbs(0x695b8aea, 0xca96ac30, 0x200eed38, 0xd248ecda, 0x23d4b71d, 0x17133438, 0x15391ca, 0x63663774));
    proof { assert(state_vals(row@) =~= spec_reference_ark()[10]); }
    t.push(row);
    let mut row: Vec<Felt> = Vec::new();
    row.push(felt_from_limbs(0x246631fa, 0x922d00ad, 0x77487ae8, 0xfc8752be, 0x65c9f5e6, 0x8faccc2, 0x96c1b659, 0xbf10b2f4));
    row.push(felt_from_limbs(0x26a1e960, 0xda44c4ec, 0x93bae89b, 0xad6d03ae, 0x406da079, 0x615db304, 0x3913831d, 0x34de2d30));
    row.push(felt_from_limbs(0x6e5aaa14, 0xb285c03a, 0xaddc4445, 0x24e4d10, 0x42dc392c, 0xeb3887e6, 0xb70ae6e8, 0x70e2209c));
    proof { assert(state_vals(row@) =~= spec_reference_ark()[11]); }
    t.push(row);
    let mut row: Vec<Felt> = Vec::new();
    row.push(felt_from_limbs(0x25db0937, 0x67397241, 0xcc440d40, 0x4a7bfa64, 0x353a59a7, 0xcdd72a99, 0xe938607b, 0x5feca6fa));
    row.push(felt_from_limbs(0x4d181c6c, 0x331ca9b4, 0x337d8671, 0xc7a52182, 0xb8bea9f2, 0xecdc7a44, 0xce05b16a, 0x1c48835));
    row.push(felt_from_limbs(0xa380197, 0x87f4cc1c, 0x627a65a2, 0x1bef2106, 0xd5015b85, 0xdfbd77b2, 0x965418b0, 0x2dbc6bd8));
    proof { assert(state_vals(row@) =~= spec_reference_ark()[12]); }
    t.push(row);
    let mut row: Vec<Felt> = Vec::new();
    row.push(felt_from_limbs(0xd70bafa, 0x4cfb81c1, 0x8403f621, 0x9c507441, 0x858112a, 0xec831693, 0x3a6ebc9a, 0xa6ddc5f0));
    row.push(felt_from_limbs(0x5d3688b, 0xa56f34fd, 0xf56bc056, 0xad8bf740, 0xca0c2efe, 0xf23b04a4, 0x79f612fd, 0xe5800a0a));
    row.push(felt_from_limbs(0x2a29abde, 0xf3fef803, 0x9e67ed33, 0x6e82dc6c, 0x2e26d872, 0xd98b3cce, 0x811c69ae, 0x363b4452));
    proof { assert(state_vals(row@) =~= spec_reference_ark()[13]); }
    t.push(row);
    let mut row: Vec<Felt> = Vec::new();
    row.push(felt_from_limbs(0x1be8096e, 0xcfcbce15, 0xee400801, 0xa56f236d, 0xb2c43d1e, 0x33c92b57, 0xac58daf2, 0xd3fc44de));
    row.push(felt_from_limbs(0x13d21146, 0x13d277b7, 0xaa19b04a, 0x9b3f9c72, 0x3f2c8548, 0x1b4b076c, 0x2265354, 0xc57db9da));
    row.push(felt_from_limbs(0x3be19e45, 0x97319855, 0x424da2f5, 0xb1ac1e73, 0xfb37f3fc, 0xf1fb2958, 0xadca3205, 0x6aeaef1e));
    proof { assert(state_vals(row@) =~= spec_reference_ark()[14]); }
    t.push(row);
    let mut row: Vec<Felt> = Vec::new();
    row.push(felt_from_limbs(0x658aecc0, 0x81b55df, 0x4a4d1c4c, 0x8f27932e, 0x4170c378, 0x41fef49a, 0xca0ec7a1, 0x23c00ae2));
    row.push(felt_from_limbs(0x6f57b4b7, 0xee98e17e, 0x5460b719, 0x95790396, 0xe4ef3c85, 0x9db5b714, 0xec09308d, 0x65d2ca6e));
    row.push(felt_from_limbs(0xedcd95a, 0x404490ef, 0x8d59e73f, 0x2fee715e, 0xeec1e34e, 0xfd2ec6d5, 0x48dc6cc4, 0x26718b79));
    proof { assert(state_vals(row@) =~= spec_reference_ark()[15]); }
    t.push(row);
    let mut row: Vec<Felt> = Vec::new();
    row.push(felt_from_limbs(0x103a915b, 0x18147094, 0x73427e34, 0xab8fbb7c, 0xa044f140, 0x88fedae9, 0x606b34a6, 0xb1e9c66));
    row.push(felt_from_limbs(0x395d549e, 0x93fb8460, 0xc68228fa, 0x86526990, 0x6cfdbc9a, 0x367d1a27, 0x9a62768a, 0x547bfc03));
    row.push(felt_from_limbs(0x16068011, 0xf3c31ba1, 0x52de9c6c, 0xee0580fc, 0x84bd0ad9, 0x2d9c5c72, 0xb08375ef, 0xf6e762d8));
    proof { assert(state_vals(row@) =~= spec_reference_ark()[16]); }
    t.push(row);
    let mut row: Vec<Felt> = Vec::new();
    row.push(felt_from_limbs(0xff751f9, 0x8968213f, 0xbe5dff3c, 0xe06e8cb9, 0x16709e0c, 0x48e3020c, 0x6b2b01c1, 0xbec0814c));
    row.push(felt_from_limbs(0x2f81c411, 0x1ca20035, 0xc8f7a859, 0x64922d31, 0x6aea4c1a, 0x226d0cb7, 0xd45cd6e0, 0xbff811f7));
    row.push(felt_from_limbs(0x62238e76, 0x5ad233ab, 0x8117456c, 0xf4ec10af, 0x3a172ce1, 0x69d8143e, 0x7ed4fe50, 0xe8e0dbc5));
    proof { assert(state_vals(row@) =~= spec_reference_ark()[17]); }
    t.push(row);
    let mut row: Vec<Felt> = Vec::new();
    row.push(felt_from_limbs(0x48b58921, 0xa3fbdc4e, 0x59b78f6a, 0xcfca9a21, 0xa4ba83cc, 0x6e0ae352, 0x7fbaad90, 0x7fc912c1));
    row.push(felt_from_limbs(0x222a4f8a, 0x5cdc74b8, 0xb9d16b61, 0xc2973847, 0x211d84eb, 0x2fb27b81, 0x6e52821c, 0x2e2b1b22));
    row.push(felt_from_limbs(0xc1cf6db, 0x5d6145fe, 0xfeccbbc9, 0xa50b2cee, 0xdeb1765c, 0x61516ffc, 0xb112f810, 0xad670370));
    proof { assert(state_vals(row@) =~= spec_reference_ark()[18]); }
    t.push(row);
    let mut row: Vec<Felt> = Vec::new();
    row.push(felt_from_limbs(0x5cd09d15, 0x6fd65f9c, 0xe9c22df2, 0x85a9146a, 0x58ac6bef, 0xfdfc5b45, 0xade9de12, 0x416b684a));
    row.push(felt_from_limbs(0x7ae4ab6, 0x9b439b98, 0x314ff59c, 0x47863168, 0x1956e620, 0x7144804a, 0x51df0b83, 0x39be1499));
    row.push(felt_from_limbs(0x3a09cf54, 0x1e5f7573, 0x2b93310b, 0x8ce37b09, 0x2a582826, 0x43860b57, 0x7c7eb98, 0xea03a0d));
    proof { assert(state_vals(row@) =~= spec_reference_ark()[19]); }
    t.push(row);
    let mut row: Vec<Felt> = Vec::new();
    row.push(felt_from_limbs(0x72c7bb92, 0xd6c1b981, 0xd8a24983, 0x9cdfdeb5, 0x1e753d1f, 0x2871dad2, 0x8c22dd5b, 0xfa953288));
    row.push(felt_from_limbs(0x380e8103, 0xa2390335, 0x5dc6d5f5, 0x9253a627, 0xa2a39c8a, 0xca11a914, 0x670e7a35, 0xdea38c96));
    row.push(felt_from_limbs(0x46a37255, 0x48c66585, 0x6bdc1b4, 0xd5f9bed8, 0x3ef8ca74, 0x68d68f4f, 0xbbf345de, 0x2d552f7a));
    proof { assert(state_vals(row@) =~= spec_reference_ark()[20]); }
    t.push(row);
    let mut row: Vec<Felt> = Vec::new();
    row.push(felt_from_limbs(0x5a922616, 0x6da9b2ef, 0x2d2336f9, 0x9f4af459, 0xbde6b807, 0xa22058ec, 0xb447b4b0, 0x6a4a4f));
    row.push(felt_from_limbs(0x285f623, 0x952eabf, 0xda01c83d, 0x157cbc0b, 0x82c8ee69, 0x777c7542, 0x64c95db8, 0xecb5d00b));
    row.push(felt_from_limbs(0x15b173c8, 0xb0eb7ebe, 0x4b3a874e, 0xb6307cda, 0x6fd875e3, 0x725061df, 0x895dc146, 0x6f35023b));
    proof { assert(state_vals(row@) =~= spec_reference_ark()[21]); }
    t.push(row);
    let mut row: Vec<Felt> = Vec::new();
    row.push(felt_from_limbs(0x37e1c2d6, 0xfde8ad05, 0x87bae06a, 0xd491d391, 0xc448f877, 0xe53298b6, 0x370f2165, 0xc3d54de1));
    row.push(felt_from_limbs(0x28edd04c, 0x14bdf81f, 0x66356d13, 0xbce0cdd, 0x3bb7321b, 0x77739de4, 0xfa433b58, 0xca6627bb));
    row.push(felt_from_limbs(0xccdebba, 0x60cee94b, 0x3dfa5de3, 0xfd1526d2, 0x2e9e9b6e, 0x114c6f94, 0xe240eed7, 0x970993ec));
    proof { assert(state_vals(row@) =~= spec_reference_ark()[22]); }
    t.push(row);
    let mut row: Vec<Felt> = Vec::new();
    row.push(felt_from_limbs(0x4c472d73, 0xb28305fe, 0xd708467e, 0x9296fb55, 0x99d3a088, 0x14c31c41, 0x89e9579c, 0x46e8798));
    row.push(felt_from_limbs(0x17df4d89, 0xeac3ea57, 0x379d33b8, 0x7086acda, 0xb9d1db6d, 0x9b7ffa07, 0x2cc23614, 0xb11170ff));
    row.push(felt_from_limbs(0x5e2e66df, 0xf05068f0, 0xd0ec0493, 0x227cfb09, 0xf992710, 0x3e98fb9c, 0x822548ec, 0x9c4dc4d0));
    proof { assert(state_vals(row@) =~= spec_reference_ark()[23]); }
    t.push(row);
    let mut row: Vec<Felt> = Vec::new();
    row.push(felt_from_limbs(0x2f4876a, 0xe6aa1539, 0xd13ce923, 0x6e2a79fe, 0x8b69f377, 0xc4f7dc77, 0x65c1d420, 0x877eb1ac));
    row.push(felt_from_limbs(0x5d09b72, 0x40df50d3, 0x1dd194c9, 0x1b9d3c9b, 0xb461c8ad, 0xf173f8de, 0x2f30acd5, 0x7e26d902));
    row.push(felt_from_limbs(0xb82e1aa, 0x86784b4b, 0x47288ddc, 0x464d976c, 0xfae4e6df, 0x8b288aef, 0xe5a751b8, 0xce6bcc2f));
    proof { assert(state_vals(row@) =~= spec_reference_ark()[24]); }
    t.push(row);
    let mut row: Vec<Felt> = Vec::new();
    row.push(felt_from_limbs(0x17be354a, 0x3dd4b50b, 0x2804643b, 0xc6326b02, 0x178f3f39, 0xddbe2847, 0x120dce85, 0xe6122b83));
    row.push(felt_from_limbs(0x6a250f43, 0xb7fe8ae, 0x2e5d00b6, 0xb83e52a5, 0x2ca94879, 0xccfab81a, 0x7a602662, 0xc2d62c5a));
    row.push(felt_from_limbs(0x69db87a1, 0x5023a037, 0xec7876ef, 0x63b5b925, 0xbea86a78, 0xd1587acb, 0xbbb1efb8, 0x9a258635));
    proof { assert(state_vals(row@) =~= spec_reference_ark()[25]); }
    t.push(row);
    let mut row: Vec<Felt> = Vec::new();
    row.push(felt_from_limbs(0x7235ec59, 0x73916579, 0x510f616f, 0xa8b87900, 0xfd08fd42, 0x8a785cf, 0xfcf784a6, 0x3a0fd5d4));
    row.push(felt_from_limbs(0x3ced4e87, 0x2eb7e7ad, 0x207be77e, 0x9d11e38f, 0x396b5c0b, 0xa3376e85, 0x5523c00b, 0x372cc66f));
    row.push(felt_from_limbs(0x55f9406f, 0xebca3923, 0xb756ef3f, 0x6331890b, 0x3d46afa7, 0x5908f68, 0xfb7d861c, 0x4f275a25));
    proof { assert(state_vals(row@) =~= spec_reference_ark()[26]); }
    t.push(row);
    let mut row: Vec<Felt> = Vec::new();
    row.push(felt_from_limbs(0x25ec1dae, 0xb061a3b5, 0x2ee0c759, 0xace69bbb, 0xb5a0c35, 0x4663946e, 0x97edf442, 0xabdaa4af));
    row.push(felt_from_limbs(0x60c336cf, 0x923329f7, 0x15e5486, 0x1f311edc, 0x1625d7a3, 0x9478f04e, 0xfa530f42, 0xc5359547));
    row.push(felt_from_limbs(0x35c72d38, 0xa9ecc3a2, 0xcede92a3, 0xa8f0149b, 0x7f5c4ce0, 0x648cc975, 0xc49d6fd2, 0xb033d917));
    proof { assert(state_vals(row@) =~= spec_reference_ark()[27]); }
    t.push(row);
    let mut row: Vec<Felt> = Vec::new();
    row.push(felt_from_limbs(0xf558bbe, 0xa55584d0, 0x1725d8aa, 0x67ddba62, 0x6b6596bb, 0xd2f4e657, 0x19702cef, 0xcead4bac));
    row.push(felt_from_limbs(0x5d22e7c7, 0x6b6329a1, 0x22e4c96c, 0x566c4e65, 0x1cf3b3d2, 0x6ed039b7, 0xa44cf7b, 0x3eef17d7));
    row.push(felt_from_limbs(0xc9b6c86, 0x40b1ba78, 0xf8b2e123, 0x41c90bf3, 0x6e4c578d, 0xcaad0a69, 0x567289b7, 0x7087bf6f));
    proof { assert(state_vals(row@) =~= spec_reference_ark()[28]); }
    t.push(row);
    let mut row: Vec<Felt> = Vec::new();
    row.push(felt_from_limbs(0x3e502262, 0xc51ad96d, 0x16926346, 0x857dec8c, 0xca2e99f5, 0x742b6bf2, 0x23f4d8a6, 0xf32867ad));
    row.push(felt_from_limbs(0x3bddb87a, 0x966b169d, 0xf54f4ffc, 0xfc273db8, 0x95a54600, 0x437a5744, 0xcd3a5932, 0xd2ec0e66));
    row.push(felt_from_limbs(0xb1042ee, 0xd16da194, 0x92983968, 0x6d16509, 0xb4335bb6, 0x96bc1521, 0x1b221c6, 0xd2a1cea3));
    proof { assert(state_vals(row@) =~= spec_reference_ark()[29]); }
    t.push(row);
    let mut row: Vec<Felt> = Vec::new();
    row.push(felt_from_limbs(0x11a1540f, 0x48f49f8d, 0xb7a06e5b, 0x54938fd7, 0x9948bebd, 0x1613c7e4, 0xc1c63e8e, 0xe3ec3d82));
    row.push(felt_from_limbs(0x6a4225f6, 0xa0fefa0a, 0x80fcf9fd, 0xf620cb90, 0x4067a617, 0xc34c7147, 0xd6955e79, 0x44d4f8a8));
    row.push(felt_from_limbs(0x3a47e200, 0x6e60c63, 0xb2f3c2c4, 0xd7144df3, 0x3227f01b, 0x54bede22, 0x6fcf838, 0xaef5314f));
    proof { assert(state_vals(row@) =~= spec_reference_ark()[30]); }
    t.push(row);
    let mut row: Vec<Felt> = Vec::new();
    row.push(felt_from_limbs(0x67da445b, 0x81e9b49f, 0x6d47a5f4, 0xd23b92a3, 0x78a17f11, 0x9d5e6e70, 0x629f8b41, 0xfefb12ef));
    row.push(felt_from_limbs(0x2b22dab, 0x62f0817e, 0x9fc5737e, 0x189d5096, 0xa9027882, 0xbef17389, 0x43b70162, 0x56118343));
    row.push(felt_from_limbs(0x11d3b2a0, 0xd00dfb14, 0x545a4ec1, 0xbf32b4c6, 0x2e42a270, 0x9bec44ba, 0xfbef432d, 0x790e50f2));
    proof { assert(state_vals(row@) =~= spec_reference_ark()[31]); }
    t.push(row);
    let mut row: Vec<Felt> = Vec::new();
    row.push(felt_from_limbs(0x137d6fda, 0x9251496a, 0xeaa93bb1, 0x2f6da1e7, 0x3ec67239, 0x8e4b2abd, 0x5b682e5b, 0xc6360318));
    row.push(felt_from_limbs(0x5070efae, 0xae36f759, 0xf362f6c, 0xb423d200, 0x9b30ddb4, 0x178d46de, 0xf0bdb290, 0x5b3e086c));
    row.push(felt_from_limbs(0x10916af4, 0xe3aa292a, 0xa3c5d716, 0x73749ed7, 0x2b11013c, 0xb806b21e, 0x25a0e413, 0x7ccaeefc));
    proof { assert(state_vals(row@) =~= spec_reference_ark()[32]); }
    t.push(row);
    let mut row: Vec<Felt> = Vec::new();
    row.push(felt_from_limbs(0x3a9fd443, 0x5a5aa1e, 0xbbf9674, 0xe544bda0, 0xfb3d0fe5, 0xbb3aa743, 0xfd1b8a4f, 0xc1dc605c));
    row.push(felt_from_limbs(0x88ff5d7, 0x99d54e55, 0xcfb60174, 0xc57fbda8, 0xf99f1f72, 0xd887c944, 0xaa6363d8, 0x619f9780));
    row.push(felt_from_limbs(0x12550161, 0x94ae2bda, 0x98c31d52, 0x6d91c357, 0xe1bf2ab3, 0x94718052, 0xc14b58f6, 0xb8989b68));
    proof { assert(state_vals(row@) =~= spec_reference_ark()[33]); }
    t.push(row);
    let mut row: Vec<Felt> = Vec::new();
    row.push(felt_from_limbs(0x489c394f, 0x45c8262d, 0x9932eea2, 0x51cc9f57, 0x68940334, 0xbf1d4b, 0x7acd79af, 0x1d958840));
    row.push(felt_from_limbs(0x17c3f5fb, 0xc7f81b34, 0x8c3ed355, 0xb95b451f, 0x2da684f1, 0x5a07cd3d, 0x1b9d57ba, 0xa02e9210));
    row.push(felt_from_limbs(0x5fd2dd99, 0x4756eb86, 0xa576b747, 0x90b21949, 0x71596f9c, 0xd59e55ad, 0x2884c520, 0x39013e00));
    proof { assert(state_vals(row@) =~= spec_reference_ark()[34]); }
    t.push(row);
    let mut row: Vec<Felt> = Vec::new();
    row.push(felt_from_limbs(0x41922810, 0xcc08f593, 0xf300df86, 0x9823b9f1, 0x8b3327e2, 0x9e9e7650, 0x2970ef0, 0xf2e8c5fb));
    row.push(felt_from_limbs(0x114193a7, 0xce2b93f6, 0xea0d09cf, 0x90ce9c55, 0xe6029f73, 0xab019458, 0x71cbd4a9, 0x8ed418bb));
    row.push(felt_from_limbs(0x43df5535, 0xbaac8935, 0x761888ec, 0x38613069, 0x359787bb, 0x53de686c, 0x376c5bcb, 0xb6ea78a3));
    proof { assert(state_vals(row@) =~= spec_reference_ark()[35]); }
    t.push(row);
    let mut row: Vec<Felt> = Vec::new();
    row.push(felt_from_limbs(0x2b9427f, 0x40637235, 0xda8c727b, 0xdcb48819, 0x4d9a35d2, 0xe06b048a, 0x19e40a1c, 0xb008ddb7));
    row.push(felt_from_limbs(0x36cb64e3, 0xa0d37ad0, 0x4273ce4e, 0xe6929ba3, 0x72d6811d, 0xde135af4, 0x78ba6e1, 0x912e101a));
    row.push(felt_from_limbs(0x50d63b53, 0x707ad033, 0x62f05f68, 0x8129bf30, 0xad437142, 0x57949cd9, 0xded4bf59, 0x53837fb8));
    proof { assert(state_vals(row@) =~= spec_reference_ark()[36]); }
    t.push(row);
    proof { assert(table_vals(t@) =~~= spec_reference_ark()); }
    t
}

/// Builds the mixing matrix of the reference instantiation.
pub fn reference_mds() -> (t: Vec<Vec<Felt>>)
    ensures
        t@.len() == 3,
        forall|r: int| 0 <= r < t@.len() ==> (#[trigger] t@[r])@.len() == 3,
        table_vals(t@) == spec_reference_mds(),
{
    let mut t: Vec<Vec<Felt>> = Vec::new();
    let mut row: Vec<Felt> = Vec::new();
    row.push(felt_from_limbs(0x5f92976a, 0xab503e, 0xd49df6c7, 0xf5128b11, 0x43b7a801, 0x2c9fba01, 0x49baafe8, 0x6d5989c2));
    row.push(felt_from_limbs(0x2dd44641, 0xa270a481, 0x6041fa76, 0x43d73e2b, 0x2e7e47e, 0xe282ea1b, 0x5a1e7db, 0xece109c0));
    row.push(felt_from_limbs(0x1f8fcff5, 0xcf00e716, 0x81dfbdac, 0x9dc72b62, 0x4cce5f45, 0xe392e5f, 0xe54900ba, 0xd0631089));
    proof { assert(state_vals(row@) =~= spec_reference_mds()[0]); }
    t.push(row);
    let mut row: Vec<Felt> = Vec::new();
    row.push(felt_from_limbs(0x6b84319, 0x5a16718, 0xcd357199, 0x2780b29a, 0x983ec9bc, 0xec227038, 0x6d08ddb, 0xa837ad89));
    row.push(felt_from_limbs(0xec41a4a, 0x77dc192e, 0xaf78f53b, 0x3dfe3989, 0xf7533d0e, 0xf06a1af, 0xfec83c7f, 0x7d75663d));
    row.push(felt_from_limbs(0x529633d5, 0xaf881e74, 0x50593ac4, 0x499e4c24, 0x50db8df8, 0x886faa9a, 0x2b254cfa, 0xe058085d));
    proof { assert(state_vals(row@) =~= spec_reference_mds()[1]); }
    t.push(row);
    let mut row: Vec<Felt> = Vec::new();
    row.push(felt_from_limbs(0x3a8c0fc7, 0x16fd03cd, 0x5ff0ca4b, 0x3c46d79e, 0x27f84b61, 0xf535bb46, 0x99565508, 0x2253d4dc));
    row.push(felt_from_limbs(0x428dd806, 0x96b9b260, 0x6cfdf620, 0xb5e51e5c, 0xfa2f5218, 0x895c116a, 0x61db8ad, 0x6f6dac27));
    row.push(felt_from_limbs(0xca14934, 0x9b5be217, 0xb7ed6b51, 0x4cd6dbe0, 0x704868a5, 0x8fee39d4, 0xc0d8375b, 0x3825acd3));
    proof { assert(state_vals(row@) =~= spec_reference_mds()[2]); }
    t.push(row);
    proof { assert(table_vals(t@) =~~= spec_reference_mds()); }
    t
}

} // verus!
