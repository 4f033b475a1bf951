//! A quote of a real TDX machine, with Intel's collateral for it, taken through the whole
//! verification.
use attestation_portal::cert::{
    extract_quote_from_app_cert, extract_quote_from_blob, extract_quote_from_extensions, Extension,
    QuoteError,
};
use attestation_portal::dcap::Collateral;
use attestation_portal::onchain::RpcReply;
use attestation_portal::report::{CvmAttestation, Measurements, Role};
use attestation_portal::verify::{
    begin_verification, chain_replied, collateral_arrived, extract_fmspc, quote_verified,
    CollateralReply, CvmVerdict, VerifyStep,
};

const QUOTE: &str = "\
040002008100000000000000939a7233f79c4ca9940a0db3957f0607889b7d6ff9df2405b240a830e73faf3d00000000\
060103000000000000000000000000005b38e33a6487958b72c3c12a938eaa5e3fd4510c51aeeab58c7d5ecee41d7c43\
6489d6c8e4f92f160b7cad34207b00c10000000000000000000000000000000000000000000000000000000000000000\
0000000000000000000000000000000000000000000000000000001000000000e70206000000000091eb2b44d141d4ec\
e09f0c75c2c53d247a3c68edd7fafe8a3520c942a604a407de03ae6dc5f87f27428b2538873118b70000000000000000\
000000000000000000000000000000000000000000000000000000000000000000000000000000000000000000000000\
000000000000000000000000000000000000000000000000000000000000000000000000000000000000000000000000\
0000000000000000000000000000000000000000000000000000000000000000000000000000000044c0197b39157fdd\
7a4dcc44767f9d6b0bb3977c7a8e347b8492f827fe9d9e5c48aca29b220b80b6a540cf994b9bc9c00084452c01668329\
d4bc06acdf58a7205c26743304509973949e5619bf81a6a7aea8c323c173019b3093d54e579e9378d833feef2cd94514\
8aa38ead2c53e9b7f138190aaaebfc551dccd829fc207aa3ba80b70870d7330733642e01d48c31320000000000000000\
000000000000000000000000000000000000000000000000000000000000000000000000000000009a9d48e7f6799642\
d3d1b34e1e5e1742d4bb02dd6ddd551862c1211d35c304f9eca3efdbb481601c163cf52493d6e44aed55d51ec39b7e51\
8fadb92c2b523f20cc100000f156eac8ad01d79f7cce668f60005819b22f2151a66155a430ad4f7a9538ae31330f9dfd\
5424e7c4124b44a668cb97fe2da48e617252ee5aeb6252d48e9324e5c78ac5859b9f567238fad82ad63202bc516ee7ad\
14ec1d9adfc633e4cf5f71f73d6138ce76d0d9c1443f695464d1ed419c37ce696e70e95a5b317894a589790706004610\
00000303191b04ff00060000000000000000000000000000000000000000000000000000000000000000000000000000\
00001500000000000000e700000000000000e5a3a7b5d830c2953b98534c6c59a3a34fdc34e933f7f5898f0a85cf0884\
6bca0000000000000000000000000000000000000000000000000000000000000000dc9e2a7c6f948f17474e34a7fc43\
ed030f7c1563f1babddf6340c82e0e54a8c5000000000000000000000000000000000000000000000000000000000000\
000000000000000000000000000000000000000000000000000000000000000000000000000000000000000000000000\
000000000000000000000000000000000000020006000000000000000000000000000000000000000000000000000000\
00000000000000000000000000000000000000000000000000000000000000000000c936492a774946af9b588f6b3bd8\
beddc5957d1761ded2c0bb61d7b64de5b324000000000000000000000000000000000000000000000000000000000000\
0000ca1bd340a4c8437b3d3d6fcf8b40030ddb7ac7f22d9597f4b593120350c891cafdf7c699e6feac62e44d474b48c6\
53114a2adf325623b6a218a166a27dfe85502000000102030405060708090a0b0c0d0e0f101112131415161718191a1b\
1c1d1e1f05005e0e00002d2d2d2d2d424547494e2043455254494649434154452d2d2d2d2d0a4d49494538544343424a\
6167417749424167495550426274564f724c744d3751637235795977794665497a30626a5977436759494b6f5a497a6a\
3045417749770a634445694d434147413155454177775a535735305a577767553064594946424453794251624746305a\
6d397962534244515445614d42674741315545436777520a535735305a57776751323979634739795958527062323478\
4644415342674e564241634d43314e68626e526849454e7359584a684d51737743515944565151490a44414a44515445\
4c4d416b474131554542684d4356564d774868634e4d6a55774d6a41324d6a4d794e5455785768634e4d7a49774d6a41\
324d6a4d794e5455780a576a42774d534977494159445651514444426c4a626e526c624342545231676755454e4c4945\
4e6c636e52705a6d6c6a5958526c4d526f77474159445651514b0a4442464a626e526c6243424462334a7762334a6864\
476c76626a45554d424947413155454277774c553246756447456751327868636d4578437a414a42674e560a4241674d\
416b4e424d517377435159445651514745774a56557a425a4d424d4742797147534d34394167454743437147534d3439\
4177454841304941424263670a2b67547437346141763764492f5a5a612b5431687042656f38664b5a454f6934697a5a\
6d332f39744b795a673879695049444e572b514a54702f62335a6862690a51684c434c507a44356d316f483563636c32\
6d6a67674d4d4d4949444344416642674e5648534d4547444157674253566231334e765276683655424a796454300a4d\
383442567776655644427242674e56485238455a4442694d47436758714263686c706f64485277637a6f764c32467761\
533530636e567a6447566b633256790a646d6c6a5a584d75615735305a577775593239744c334e6e6543396a5a584a30\
61575a7059324630615739754c3359304c33426a61324e796244396a595431770a624746305a6d397962535a6c626d4e\
765a476c755a7a316b5a584977485159445652304f42425945464b75326d677765696c563157656b577743744c47612b\
410a5250765a4d41344741315564447745422f775145417749477744414d42674e5648524d4241663845416a41414d49\
49434f51594a4b6f5a496876684e415130420a424949434b6a4343416959774867594b4b6f5a496876684e4151304241\
5151516752334b4b69613555756862746b534c4358756b2f54434341574d47436971470a534962345451454e41514977\
676746544d42414743797147534962345451454e41514942416745444d42414743797147534962345451454e41514943\
416745440a4d42414743797147534962345451454e41514944416745434d42414743797147534962345451454e415149\
45416745434d42414743797147534962345451454e0a41514946416745454d42414743797147534962345451454e4151\
4947416745424d42414743797147534962345451454e41514948416745414d424147437971470a534962345451454e41\
514949416745464d42414743797147534962345451454e4151494a416745414d42414743797147534962345451454e41\
51494b416745410a4d42414743797147534962345451454e4151494c416745414d42414743797147534962345451454e\
4151494d416745414d42414743797147534962345451454e0a4151494e416745414d4241474379714753496234545145\
4e4151494f416745414d42414743797147534962345451454e41514950416745414d424147437971470a534962345451\
454e41514951416745414d42414743797147534962345451454e415149524167454c4d42384743797147534962345451\
454e41514953424241440a41774943424145414251414141414141414141414d42414743697147534962345451454e41\
514d45416741414d42514743697147534962345451454e415151450a42724441627741414144415042676f71686b6947\
2b45304244514546436745424d42344743697147534962345451454e415159454541654368485267506e415a0a334a4d\
4864662f6f7a6449775241594b4b6f5a496876684e41513042427a41324d42414743797147534962345451454e415163\
424151482f4d424147437971470a534962345451454e415163434151482f4d42414743797147534962345451454e4151\
63444151482f4d416f4743437147534d343942414d4341306b414d4559430a4951444a4f39684e556453344e46544e31\
516b6e2b32634d63477465756231414e765176336c7675537048315a774968414a4c4368396b6941416f4f577a612f0a\
4a616f47696e67375533765872323654734d35366d715945776446560a2d2d2d2d2d454e442043455254494649434154\
452d2d2d2d2d0a2d2d2d2d2d424547494e2043455254494649434154452d2d2d2d2d0a4d4949436c6a4343416a326741\
77494241674956414a567658633239472b487051456e4a3150517a7a674658433935554d416f4743437147534d343942\
414d430a4d476778476a415942674e5642414d4d45556c756447567349464e48574342536232393049454e424d526f77\
474159445651514b4442464a626e526c624342440a62334a7762334a6864476c76626a45554d42494741315545427777\
4c553246756447456751327868636d4578437a414a42674e564241674d416b4e424d5173770a43515944565151474577\
4a56557a4165467730784f4441314d6a45784d4455774d5442614677307a4d7a41314d6a45784d4455774d5442614d48\
4178496a41670a42674e5642414d4d47556c756447567349464e4857434251513073675547786864475a76636d306751\
304578476a415942674e5642416f4d45556c75644756730a49454e76636e4276636d4630615739754d52517745675944\
56515148444174545957353059534244624746795954454c4d416b474131554543417743513045780a437a414a42674e\
5642415954416c56544d466b77457759484b6f5a497a6a3043415159494b6f5a497a6a304441516344516741454e5342\
2f377432316c58534f0a3243757a7078773734654a423732457944476757357258437478327456544c7136684b6b367a\
2b5569525a436e71523770734f766771466553786c6d546c4a6c0a65546d693257597a33714f42757a43427544416642\
674e5648534d4547444157674251695a517a575770303069664f44744a5653763141624f536347724442530a42674e56\
48523845537a424a4d45656752614244686b466f64485277637a6f764c324e6c636e52705a6d6c6a5958526c63793530\
636e567a6447566b633256790a646d6c6a5a584d75615735305a577775593239744c306c756447567355306459556d39\
7664454e424c6d526c636a416442674e5648513445466751556c5739640a7a62306234656c4153636e553944504f4156\
634c336c517744675944565230504151482f42415144416745474d42494741315564457745422f7751494d4159420a41\
66384341514177436759494b6f5a497a6a30454177494452774177524149675873566b6930772b693656594757335546\
2f32327561586530594a446a3155650a6e412b546a44316169356343494359623153416d4435786b66545670766f3455\
6f79695359787244574c6d5552344349394e4b7966504e2b0a2d2d2d2d2d454e442043455254494649434154452d2d2d\
2d2d0a2d2d2d2d2d424547494e2043455254494649434154452d2d2d2d2d0a4d4949436a7a4343416a53674177494241\
674955496d554d316c71644e496e7a6737535655723951477a6b6e42717777436759494b6f5a497a6a3045417749770a\
614445614d4267474131554541777752535735305a5777675530645949464a766233516751304578476a415942674e56\
42416f4d45556c756447567349454e760a636e4276636d4630615739754d525177456759445651514844417454595735\
3059534244624746795954454c4d416b47413155454341774351304578437a414a0a42674e5642415954416c56544d42\
3458445445344d4455794d5445774e4455784d466f58445451354d54497a4d54497a4e546b314f566f77614445614d42\
67470a4131554541777752535735305a5777675530645949464a766233516751304578476a415942674e5642416f4d45\
556c756447567349454e76636e4276636d46300a615739754d5251774567594456515148444174545957353059534244\
624746795954454c4d416b47413155454341774351304578437a414a42674e56424159540a416c56544d466b77457759\
484b6f5a497a6a3043415159494b6f5a497a6a3044415163445167414543366e45774d4449595a4f6a2f69505773437a\
61454b69370a314f694f534c52466857476a626e42564a66566e6b59347533496a6b4459594c304d784f346d71737959\
6a6c42616c54565978465032734a424b357a6c4b4f420a757a43427544416642674e5648534d4547444157674251695a\
517a575770303069664f44744a5653763141624f5363477244425342674e5648523845537a424a0a4d45656752614244\
686b466f64485277637a6f764c324e6c636e52705a6d6c6a5958526c63793530636e567a6447566b63325679646d6c6a\
5a584d75615735300a5a577775593239744c306c756447567355306459556d397664454e424c6d526c636a416442674e\
564851344546675155496d554d316c71644e496e7a673753560a55723951477a6b6e4271777744675944565230504151\
482f42415144416745474d42494741315564457745422f7751494d4159424166384341514577436759490a4b6f5a497a\
6a3045417749445351417752674968414f572f35516b522b533943695344634e6f6f774c7550524c735747662f596937\
47535839344267775477670a41694541344a306c72486f4d732b586f356f2f7358364f39515778485241765a55474f64\
52513763767152586171493d0a2d2d2d2d2d454e442043455254494649434154452d2d2d2d2d0a000000000000000000\
000000000000000000000000000000000000000000000000000000000000000000000000000000000000000000000000\
0000000000000000000000000000";

const PCK_CRL_ISSUER_CHAIN: &str = "\
-----BEGIN CERTIFICATE-----\nMIICljCCAj2gAwIBAgIVAJVvXc29G+HpQEnJ1PQzzgFXC95UMAoGCCqGSM49BAMC\nM\
GgxGjAYBgNVBAMMEUludGVsIFNHWCBSb290IENBMRowGAYDVQQKDBFJbnRlbCBD\nb3Jwb3JhdGlvbjEUMBIGA1UEBwwLU2F\
udGEgQ2xhcmExCzAJBgNVBAgMAkNBMQsw\nCQYDVQQGEwJVUzAeFw0xODA1MjExMDUwMTBaFw0zMzA1MjExMDUwMTBaMHAxI\
jAg\nBgNVBAMMGUludGVsIFNHWCBQQ0sgUGxhdGZvcm0gQ0ExGjAYBgNVBAoMEUludGVs\nIENvcnBvcmF0aW9uMRQwEgYDV\
QQHDAtTYW50YSBDbGFyYTELMAkGA1UECAwCQ0Ex\nCzAJBgNVBAYTAlVTMFkwEwYHKoZIzj0CAQYIKoZIzj0DAQcDQgAENSB\
/7t21lXSO\n2Cuzpxw74eJB72EyDGgW5rXCtx2tVTLq6hKk6z+UiRZCnqR7psOvgqFeSxlmTlJl\neTmi2WYz3qOBuzCBuDA\
fBgNVHSMEGDAWgBQiZQzWWp00ifODtJVSv1AbOScGrDBS\nBgNVHR8ESzBJMEegRaBDhkFodHRwczovL2NlcnRpZmljYXRlc\
y50cnVzdGVkc2Vy\ndmljZXMuaW50ZWwuY29tL0ludGVsU0dYUm9vdENBLmRlcjAdBgNVHQ4EFgQUlW9d\nzb0b4elAScnU9\
DPOAVcL3lQwDgYDVR0PAQH/BAQDAgEGMBIGA1UdEwEB/wQIMAYB\nAf8CAQAwCgYIKoZIzj0EAwIDRwAwRAIgXsVki0w+i6V\
YGW3UF/22uaXe0YJDj1Ue\nnA+TjD1ai5cCICYb1SAmD5xkfTVpvo4UoyiSYxrDWLmUR4CI9NKyfPN+\n-----END CERTIF\
ICATE-----\n-----BEGIN CERTIFICATE-----\nMIICjzCCAjSgAwIBAgIUImUM1lqdNInzg7SVUr9QGzknBqwwCgYIKoZ\
Izj0EAwIw\naDEaMBgGA1UEAwwRSW50ZWwgU0dYIFJvb3QgQ0ExGjAYBgNVBAoMEUludGVsIENv\ncnBvcmF0aW9uMRQwEgY\
DVQQHDAtTYW50YSBDbGFyYTELMAkGA1UECAwCQ0ExCzAJ\nBgNVBAYTAlVTMB4XDTE4MDUyMTEwNDUxMFoXDTQ5MTIzMTIzN\
Tk1OVowaDEaMBgG\nA1UEAwwRSW50ZWwgU0dYIFJvb3QgQ0ExGjAYBgNVBAoMEUludGVsIENvcnBvcmF0\naW9uMRQwEgYDV\
QQHDAtTYW50YSBDbGFyYTELMAkGA1UECAwCQ0ExCzAJBgNVBAYT\nAlVTMFkwEwYHKoZIzj0CAQYIKoZIzj0DAQcDQgAEC6n\
EwMDIYZOj/iPWsCzaEKi7\n1OiOSLRFhWGjbnBVJfVnkY4u3IjkDYYL0MxO4mqsyYjlBalTVYxFP2sJBK5zlKOB\nuzCBuDA\
fBgNVHSMEGDAWgBQiZQzWWp00ifODtJVSv1AbOScGrDBSBgNVHR8ESzBJ\nMEegRaBDhkFodHRwczovL2NlcnRpZmljYXRlc\
y50cnVzdGVkc2VydmljZXMuaW50\nZWwuY29tL0ludGVsU0dYUm9vdENBLmRlcjAdBgNVHQ4EFgQUImUM1lqdNInzg7SV\nU\
r9QGzknBqwwDgYDVR0PAQH/BAQDAgEGMBIGA1UdEwEB/wQIMAYBAf8CAQEwCgYI\nKoZIzj0EAwIDSQAwRgIhAOW/5QkR+S9\
CiSDcNoowLuPRLsWGf/Yi7GSX94BgwTwg\nAiEA4J0lrHoMs+Xo5o/sX6O9QWxHRAvZUGOdRQ7cvqRXaqI=\n-----END CE\
RTIFICATE-----\n";

const ROOT_CA_CRL: &str = "\
308201203081c8020101300a06082a8648ce3d0403023068311a301806035504030c11496e74656c2053475820526f6f\
74204341311a3018060355040a0c11496e74656c20436f72706f726174696f6e3114301206035504070c0b53616e7461\
20436c617261310b300906035504080c024341310b3009060355040613025553170d3235303332303131323135375a17\
0d3236303430333131323135375aa02f302d300a0603551d140403020101301f0603551d2304183016801422650cd65a\
9d3489f383b49552bf501b392706ac300a06082a8648ce3d0403020347003044022030c9fce1438da0a94e4fffdd46c9\
650e393be6e5a7862d4e4e73527932d04af302206539efe3f734c3d7df20d9dfc4630e1c7ff0439a0f8ece101f15b5ea\
ff9b4f33";

const PCK_CRL: &str = "\
30820a6330820a08020101300a06082a8648ce3d04030230703122302006035504030c19496e74656c20534758205043\
4b20506c6174666f726d204341311a3018060355040a0c11496e74656c20436f72706f726174696f6e31143012060355\
04070c0b53616e746120436c617261310b300906035504080c024341310b3009060355040613025553170d3235303631\
393130303033355a170d3235303731393130303033355a30820934303302146fc34e5023e728923435d61aa4b83c6181\
66ad35170d3235303631393130303033355a300c300a0603551d1504030a01013034021500efae6e9715fca13b87e333\
e8261ed6d990a926ad170d3235303631393130303033355a300c300a0603551d1504030a01013034021500fd60864862\
9cba73078b4d492f4b3ea741ad08cd170d3235303631393130303033355a300c300a0603551d1504030a010130340215\
008af924184e1d5afddd73c3d63a12f5e8b5737e56170d3235303631393130303033355a300c300a0603551d1504030a\
01013034021500b1257978cfa9ccdd0759abf8c5ca72fae3a78a9b170d3235303631393130303033355a300c300a0603\
551d1504030a01013033021474fea614a972be0e2843f2059835811ed872f9b3170d3235303631393130303033355a30\
0c300a0603551d1504030a01013034021500f9c4ef56b3ab48d577e108baedf4bf88014214b9170d3235303631393130\
303033355a300c300a0603551d1504030a010130330214071de0778f9e5fc4f2878f30d6b07c9a30e6b30b170d323530\
3631393130303033355a300c300a0603551d1504030a01013034021500cde2424f972cea94ff239937f4d80c25029dd6\
0b170d3235303631393130303033355a300c300a0603551d1504030a0101303302146c3319e5109b64507d3cf1132ce0\
0349ef527319170d3235303631393130303033355a300c300a0603551d1504030a01013034021500df08d756b66a7497\
f43b5bb58ada04d3f4f7a937170d3235303631393130303033355a300c300a0603551d1504030a01013033021428af48\
5b6cf67e409a39d5cb5aee4598f7a8fa7b170d3235303631393130303033355a300c300a0603551d1504030a01013034\
021500fb8b2daec092cada8aa9bc4ff2f1c20d0346668c170d3235303631393130303033355a300c300a0603551d1504\
030a01013034021500cd4850ac52bdcc69a6a6f058c8bc57bbd0b5f864170d3235303631393130303033355a300c300a\
0603551d1504030a01013034021500994dd3666f5275fb805f95dd02bd50cb2679d8ad170d3235303631393130303033\
355a300c300a0603551d1504030a0101303302140702136900252274d9035eedf5457462fad0ef4c170d323530363139\
3130303033355a300c300a0603551d1504030a01013033021461f2bf73e39b4e04aa27d801bd73d24319b5bf80170d32\
35303631393130303033355a300c300a0603551d1504030a0101303302143992be851b96902eff38959e6c2eff1b0651\
a4b5170d3235303631393130303033355a300c300a0603551d1504030a0101303302140fda43a00b68ea79b7c2deaeac\
0b498bdfb2af90170d3235303631393130303033355a300c300a0603551d1504030a010130330214639f139a5040fdcf\
f191e8a4fb1bf086ed603971170d3235303631393130303033355a300c300a0603551d1504030a01013034021500959d\
533f9249dc1e513544cdc830bf19b7f1f301170d3235303631393130303033355a300c300a0603551d1504030a010130\
3302147ae37748a9f912f4c63ba7ab07c593ce1d1d1181170d3235303631393130303033355a300c300a0603551d1504\
030a01013033021413884b33269938c195aa170fca75da177538df0b170d3235303631393130303033355a300c300a06\
03551d1504030a0101303402150085d3c9381b77a7e04d119c9e5ad6749ff3ffab87170d323530363139313030303335\
5a300c300a0603551d1504030a0101303402150093887ca4411e7a923bd1fed2819b2949f201b5b4170d323530363139\
3130303033355a300c300a0603551d1504030a0101303302142498dc6283930996fd8bf23a37acbe26a3bed457170d32\
35303631393130303033355a300c300a0603551d1504030a010130340215008a66f1a749488667689cc3903ac54c662b\
712e73170d3235303631393130303033355a300c300a0603551d1504030a01013034021500afc13610bdd36cb7985d10\
6481a880d3a01fda07170d3235303631393130303033355a300c300a0603551d1504030a01013034021500efe04b2c33\
d036aac96ca673bf1e9a47b64d5cbb170d3235303631393130303033355a300c300a0603551d1504030a010130340215\
0083d9ac8d8bb509d1c6c809ad712e8430559ed7f3170d3235303631393130303033355a300c300a0603551d1504030a\
0101303302147931fd50b5071c1bbfc5b7b6ded8b45b9d8b8529170d3235303631393130303033355a300c300a060355\
1d1504030a0101303302141fa20e2970bde5d57f7b8ddf8339484e1f1d0823170d3235303631393130303033355a300c\
300a0603551d1504030a0101303302141e87b2c3b32d8d23e411cef34197b95af0c8adf5170d32353036313931303030\
33355a300c300a0603551d1504030a010130340215009afd2ee90a473550a167d996911437c7502d1f09170d32353036\
31393130303033355a300c300a0603551d1504030a0101303302144481b0f11728a13b696d3ea9c770a0b15ec58dda17\
0d3235303631393130303033355a300c300a0603551d1504030a01013034021500a7859f57982ef0e67d37bc8ef2ef5a\
c835ff1aa9170d3235303631393130303033355a300c300a0603551d1504030a010130340215009d67753b81e47090ae\
a763fbec4c4549bcdb9933170d3235303631393130303033355a300c300a0603551d1504030a01013033021434bfbb7a\
1d9c568147e118b614f7b76ed3ef68df170d3235303631393130303033355a300c300a0603551d1504030a0101303302\
142c3cc6fe9279db1516d5ce39f2a898cda5a175e1170d3235303631393130303033355a300c300a0603551d1504030a\
010130330214717948687509234be979e4b7dce6f31bef64b68c170d3235303631393130303033355a300c300a060355\
1d1504030a010130340215009d76ef2c39c136e8658b6e7396b1d7445a27631f170d3235303631393130303033355a30\
0c300a0603551d1504030a01013034021500c3e025fca995f36f59b48467939e3e34e6361a6f170d3235303631393130\
303033355a300c300a0603551d1504030a010130340215008c5f6b3257da05b17429e2e61ba965d67330606a170d3235\
303631393130303033355a300c300a0603551d1504030a01013034021500a17c51722ec1e0c3278fe8bdf052059cbec4\
e648170d3235303631393130303033355a300c300a0603551d1504030a0101a02f302d300a0603551d14040302010130\
1f0603551d23041830168014956f5dcdbd1be1e94049c9d4f433ce01570bde54300a06082a8648ce3d04030203490030\
46022100a8d1fdb9ca38f042df9aa14d3b1433860ddc1c7f6b873d5eecf2b63c313cb032022100cd59f446c89582be4a\
7d599df6e133533bbed9628c6a0264b7774074b44e52ef";

const TCB_INFO_ISSUER_CHAIN: &str = "\
-----BEGIN CERTIFICATE-----\nMIICjTCCAjKgAwIBAgIUfjiC1ftVKUpASY5FhAPpFJG99FUwCgYIKoZIzj0EAwIw\na\
DEaMBgGA1UEAwwRSW50ZWwgU0dYIFJvb3QgQ0ExGjAYBgNVBAoMEUludGVsIENv\ncnBvcmF0aW9uMRQwEgYDVQQHDAtTYW5\
0YSBDbGFyYTELMAkGA1UECAwCQ0ExCzAJ\nBgNVBAYTAlVTMB4XDTI1MDUwNjA5MjUwMFoXDTMyMDUwNjA5MjUwMFowbDEeM\
BwG\nA1UEAwwVSW50ZWwgU0dYIFRDQiBTaWduaW5nMRowGAYDVQQKDBFJbnRlbCBDb3Jw\nb3JhdGlvbjEUMBIGA1UEBwwLU\
2FudGEgQ2xhcmExCzAJBgNVBAgMAkNBMQswCQYD\nVQQGEwJVUzBZMBMGByqGSM49AgEGCCqGSM49AwEHA0IABENFG8xzydW\
RfK92bmGv\nP+mAh91PEyV7Jh6FGJd5ndE9aBH7R3E4A7ubrlh/zN3C4xvpoouGlirMba+W2lju\nypajgbUwgbIwHwYDVR0\
jBBgwFoAUImUM1lqdNInzg7SVUr9QGzknBqwwUgYDVR0f\nBEswSTBHoEWgQ4ZBaHR0cHM6Ly9jZXJ0aWZpY2F0ZXMudHJ1c\
3RlZHNlcnZpY2Vz\nLmludGVsLmNvbS9JbnRlbFNHWFJvb3RDQS5kZXIwHQYDVR0OBBYEFH44gtX7VSlK\nQEmORYQD6RSRv\
fRVMA4GA1UdDwEB/wQEAwIGwDAMBgNVHRMBAf8EAjAAMAoGCCqG\nSM49BAMCA0kAMEYCIQDdmmRuAo3qCO8TC1IoJMITAoO\
Ew4dlgEBHzSz1TuMSTAIh\nAKVTqOkt59+co0O3m3hC+v5Fb00FjYWcgeu3EijOULo5\n-----END CERTIFICATE-----\n\
-----BEGIN CERTIFICATE-----\nMIICjzCCAjSgAwIBAgIUImUM1lqdNInzg7SVUr9QGzknBqwwCgYIKoZIzj0EAwIw\na\
DEaMBgGA1UEAwwRSW50ZWwgU0dYIFJvb3QgQ0ExGjAYBgNVBAoMEUludGVsIENv\ncnBvcmF0aW9uMRQwEgYDVQQHDAtTYW5\
0YSBDbGFyYTELMAkGA1UECAwCQ0ExCzAJ\nBgNVBAYTAlVTMB4XDTE4MDUyMTEwNDUxMFoXDTQ5MTIzMTIzNTk1OVowaDEaM\
BgG\nA1UEAwwRSW50ZWwgU0dYIFJvb3QgQ0ExGjAYBgNVBAoMEUludGVsIENvcnBvcmF0\naW9uMRQwEgYDVQQHDAtTYW50Y\
SBDbGFyYTELMAkGA1UECAwCQ0ExCzAJBgNVBAYT\nAlVTMFkwEwYHKoZIzj0CAQYIKoZIzj0DAQcDQgAEC6nEwMDIYZOj/iP\
WsCzaEKi7\n1OiOSLRFhWGjbnBVJfVnkY4u3IjkDYYL0MxO4mqsyYjlBalTVYxFP2sJBK5zlKOB\nuzCBuDAfBgNVHSMEGDA\
WgBQiZQzWWp00ifODtJVSv1AbOScGrDBSBgNVHR8ESzBJ\nMEegRaBDhkFodHRwczovL2NlcnRpZmljYXRlcy50cnVzdGVkc\
2VydmljZXMuaW50\nZWwuY29tL0ludGVsU0dYUm9vdENBLmRlcjAdBgNVHQ4EFgQUImUM1lqdNInzg7SV\nUr9QGzknBqwwD\
gYDVR0PAQH/BAQDAgEGMBIGA1UdEwEB/wQIMAYBAf8CAQEwCgYI\nKoZIzj0EAwIDSQAwRgIhAOW/5QkR+S9CiSDcNoowLuP\
RLsWGf/Yi7GSX94BgwTwg\nAiEA4J0lrHoMs+Xo5o/sX6O9QWxHRAvZUGOdRQ7cvqRXaqI=\n-----END CERTIFICATE---\
--\n";

const TCB_INFO: &str = "\
{\"id\":\"TDX\",\"version\":3,\"issueDate\":\"2025-06-19T10:16:03Z\",\"nextUpdate\":\"2025-07-19\
T10:16:03Z\",\"fmspc\":\"B0C06F000000\",\"pceId\":\"0000\",\"tcbType\":0,\"tcbEvaluationDataNumb\
er\":17,\"tdxModule\":{\"mrsigner\":\"0000000000000000000000000000000000000000000000000000000000\
00000000000000000000000000000000000000\",\"attributes\":\"0000000000000000\",\"attributesMask\":\
\"FFFFFFFFFFFFFFFF\"},\"tdxModuleIdentities\":[{\"id\":\"TDX_03\",\"mrsigner\":\"000000000000000\
000000000000000000000000000000000000000000000000000000000000000000000000000000000\",\"attributes\
\":\"0000000000000000\",\"attributesMask\":\"FFFFFFFFFFFFFFFF\",\"tcbLevels\":[{\"tcb\":{\"isvsv\
n\":3},\"tcbDate\":\"2024-03-13T00:00:00Z\",\"tcbStatus\":\"UpToDate\"}]},{\"id\":\"TDX_01\",\"m\
rsigner\":\"000000000000000000000000000000000000000000000000000000000000000000000000000000000000\
000000000000\",\"attributes\":\"0000000000000000\",\"attributesMask\":\"FFFFFFFFFFFFFFFF\",\"tcb\
Levels\":[{\"tcb\":{\"isvsvn\":4},\"tcbDate\":\"2024-03-13T00:00:00Z\",\"tcbStatus\":\"UpToDate\
\"},{\"tcb\":{\"isvsvn\":2},\"tcbDate\":\"2023-08-09T00:00:00Z\",\"tcbStatus\":\"OutOfDate\"}]}]\
,\"tcbLevels\":[{\"tcb\":{\"sgxtcbcomponents\":[{\"svn\":2,\"category\":\"BIOS\",\"type\":\"Earl\
y Microcode Update\"},{\"svn\":2,\"category\":\"OS/VMM\",\"type\":\"SGX Late Microcode Update\"}\
,{\"svn\":2,\"category\":\"OS/VMM\",\"type\":\"TXT SINIT\"},{\"svn\":2,\"category\":\"BIOS\"},{\
\"svn\":3,\"category\":\"BIOS\"},{\"svn\":1,\"category\":\"BIOS\"},{\"svn\":0},{\"svn\":5,\"cate\
gory\":\"OS/VMM\",\"type\":\"SEAMLDR ACM\"},{\"svn\":0},{\"svn\":0},{\"svn\":0},{\"svn\":0},{\"s\
vn\":0},{\"svn\":0},{\"svn\":0},{\"svn\":0}],\"pcesvn\":11,\"tdxtcbcomponents\":[{\"svn\":5,\"ca\
tegory\":\"OS/VMM\",\"type\":\"TDX Module\"},{\"svn\":0,\"category\":\"OS/VMM\",\"type\":\"TDX M\
odule\"},{\"svn\":2,\"category\":\"OS/VMM\",\"type\":\"TDX Late Microcode Update\"},{\"svn\":0},\
{\"svn\":0},{\"svn\":0},{\"svn\":0},{\"svn\":0},{\"svn\":0},{\"svn\":0},{\"svn\":0},{\"svn\":0},\
{\"svn\":0},{\"svn\":0},{\"svn\":0},{\"svn\":0}]},\"tcbDate\":\"2024-03-13T00:00:00Z\",\"tcbStat\
us\":\"UpToDate\"},{\"tcb\":{\"sgxtcbcomponents\":[{\"svn\":2,\"category\":\"BIOS\",\"type\":\"E\
arly Microcode Update\"},{\"svn\":2,\"category\":\"OS/VMM\",\"type\":\"SGX Late Microcode Update\
\"},{\"svn\":2,\"category\":\"OS/VMM\",\"type\":\"TXT SINIT\"},{\"svn\":2,\"category\":\"BIOS\"}\
,{\"svn\":3,\"category\":\"BIOS\"},{\"svn\":1,\"category\":\"BIOS\"},{\"svn\":0},{\"svn\":5,\"ca\
tegory\":\"OS/VMM\",\"type\":\"SEAMLDR ACM\"},{\"svn\":0},{\"svn\":0},{\"svn\":0},{\"svn\":0},{\
\"svn\":0},{\"svn\":0},{\"svn\":0},{\"svn\":0}],\"pcesvn\":5,\"tdxtcbcomponents\":[{\"svn\":5,\"\
category\":\"OS/VMM\",\"type\":\"TDX Module\"},{\"svn\":0,\"category\":\"OS/VMM\",\"type\":\"TDX \
Module\"},{\"svn\":2,\"category\":\"OS/VMM\",\"type\":\"TDX Late Microcode Update\"},{\"svn\":0\
},{\"svn\":0},{\"svn\":0},{\"svn\":0},{\"svn\":0},{\"svn\":0},{\"svn\":0},{\"svn\":0},{\"svn\":0\
},{\"svn\":0},{\"svn\":0},{\"svn\":0},{\"svn\":0}]},\"tcbDate\":\"2018-01-04T00:00:00Z\",\"tcbSt\
atus\":\"OutOfDate\",\"advisoryIDs\":[\"INTEL-SA-00106\",\"INTEL-SA-00115\",\"INTEL-SA-00135\",\
\"INTEL-SA-00203\",\"INTEL-SA-00220\",\"INTEL-SA-00233\",\"INTEL-SA-00270\",\"INTEL-SA-00293\",\
\"INTEL-SA-00320\",\"INTEL-SA-00329\",\"INTEL-SA-00381\",\"INTEL-SA-00389\",\"INTEL-SA-00477\",\
\"INTEL-SA-00837\"]}]}";

const TCB_INFO_SIGNATURE: &str = "\
027ef6ca41bac64e61edbbd672b1c97eb0b2997400c5018eee002e66421b3fd27e71676891c9df47dc6ea3ea2e757ad3\
e080f394da0e0cddd76b2debe6790b4f";

const QE_IDENTITY_ISSUER_CHAIN: &str = "\
-----BEGIN CERTIFICATE-----\nMIICjTCCAjKgAwIBAgIUfjiC1ftVKUpASY5FhAPpFJG99FUwCgYIKoZIzj0EAwIw\na\
DEaMBgGA1UEAwwRSW50ZWwgU0dYIFJvb3QgQ0ExGjAYBgNVBAoMEUludGVsIENv\ncnBvcmF0aW9uMRQwEgYDVQQHDAtTYW5\
0YSBDbGFyYTELMAkGA1UECAwCQ0ExCzAJ\nBgNVBAYTAlVTMB4XDTI1MDUwNjA5MjUwMFoXDTMyMDUwNjA5MjUwMFowbDEeM\
BwG\nA1UEAwwVSW50ZWwgU0dYIFRDQiBTaWduaW5nMRowGAYDVQQKDBFJbnRlbCBDb3Jw\nb3JhdGlvbjEUMBIGA1UEBwwLU\
2FudGEgQ2xhcmExCzAJBgNVBAgMAkNBMQswCQYD\nVQQGEwJVUzBZMBMGByqGSM49AgEGCCqGSM49AwEHA0IABENFG8xzydW\
RfK92bmGv\nP+mAh91PEyV7Jh6FGJd5ndE9aBH7R3E4A7ubrlh/zN3C4xvpoouGlirMba+W2lju\nypajgbUwgbIwHwYDVR0\
jBBgwFoAUImUM1lqdNInzg7SVUr9QGzknBqwwUgYDVR0f\nBEswSTBHoEWgQ4ZBaHR0cHM6Ly9jZXJ0aWZpY2F0ZXMudHJ1c\
3RlZHNlcnZpY2Vz\nLmludGVsLmNvbS9JbnRlbFNHWFJvb3RDQS5kZXIwHQYDVR0OBBYEFH44gtX7VSlK\nQEmORYQD6RSRv\
fRVMA4GA1UdDwEB/wQEAwIGwDAMBgNVHRMBAf8EAjAAMAoGCCqG\nSM49BAMCA0kAMEYCIQDdmmRuAo3qCO8TC1IoJMITAoO\
Ew4dlgEBHzSz1TuMSTAIh\nAKVTqOkt59+co0O3m3hC+v5Fb00FjYWcgeu3EijOULo5\n-----END CERTIFICATE-----\n\
-----BEGIN CERTIFICATE-----\nMIICjzCCAjSgAwIBAgIUImUM1lqdNInzg7SVUr9QGzknBqwwCgYIKoZIzj0EAwIw\na\
DEaMBgGA1UEAwwRSW50ZWwgU0dYIFJvb3QgQ0ExGjAYBgNVBAoMEUludGVsIENv\ncnBvcmF0aW9uMRQwEgYDVQQHDAtTYW5\
0YSBDbGFyYTELMAkGA1UECAwCQ0ExCzAJ\nBgNVBAYTAlVTMB4XDTE4MDUyMTEwNDUxMFoXDTQ5MTIzMTIzNTk1OVowaDEaM\
BgG\nA1UEAwwRSW50ZWwgU0dYIFJvb3QgQ0ExGjAYBgNVBAoMEUludGVsIENvcnBvcmF0\naW9uMRQwEgYDVQQHDAtTYW50Y\
SBDbGFyYTELMAkGA1UECAwCQ0ExCzAJBgNVBAYT\nAlVTMFkwEwYHKoZIzj0CAQYIKoZIzj0DAQcDQgAEC6nEwMDIYZOj/iP\
WsCzaEKi7\n1OiOSLRFhWGjbnBVJfVnkY4u3IjkDYYL0MxO4mqsyYjlBalTVYxFP2sJBK5zlKOB\nuzCBuDAfBgNVHSMEGDA\
WgBQiZQzWWp00ifODtJVSv1AbOScGrDBSBgNVHR8ESzBJ\nMEegRaBDhkFodHRwczovL2NlcnRpZmljYXRlcy50cnVzdGVkc\
2VydmljZXMuaW50\nZWwuY29tL0ludGVsU0dYUm9vdENBLmRlcjAdBgNVHQ4EFgQUImUM1lqdNInzg7SV\nUr9QGzknBqwwD\
gYDVR0PAQH/BAQDAgEGMBIGA1UdEwEB/wQIMAYBAf8CAQEwCgYI\nKoZIzj0EAwIDSQAwRgIhAOW/5QkR+S9CiSDcNoowLuP\
RLsWGf/Yi7GSX94BgwTwg\nAiEA4J0lrHoMs+Xo5o/sX6O9QWxHRAvZUGOdRQ7cvqRXaqI=\n-----END CERTIFICATE---\
--\n";

const QE_IDENTITY: &str = "\
{\"id\":\"TD_QE\",\"version\":2,\"issueDate\":\"2025-06-19T10:32:27Z\",\"nextUpdate\":\"2025-07-\
19T10:32:27Z\",\"tcbEvaluationDataNumber\":17,\"miscselect\":\"00000000\",\"miscselectMask\":\"F\
FFFFFFF\",\"attributes\":\"11000000000000000000000000000000\",\"attributesMask\":\"FBFFFFFFFFFFF\
FFF0000000000000000\",\"mrsigner\":\"DC9E2A7C6F948F17474E34A7FC43ED030F7C1563F1BABDDF6340C82E0E5\
4A8C5\",\"isvprodid\":2,\"tcbLevels\":[{\"tcb\":{\"isvsvn\":4},\"tcbDate\":\"2024-03-13T00:00:00\
Z\",\"tcbStatus\":\"UpToDate\"}]}";

const QE_IDENTITY_SIGNATURE: &str = "\
d6d709840544c26e2ab3d680067d04b6160551f78aa23062cc79ab1be2ffe5414e21bf0fa9f0bea3c69be6c97d0a1658\
5b82f6cc481059ad4affdc1c9bccfa15";

/// In the middle of the time for which the collateral is valid.
const NOW: u64 = 1_751_328_000;

fn bytes(hex: &str) -> Vec<u8> {
    (0..hex.len() / 2)
        .map(|i| u8::from_str_radix(&hex[2 * i..2 * i + 2], 16).expect("hex"))
        .collect()
}

fn collateral() -> Collateral {
    Collateral {
        pck_crl_issuer_chain: PCK_CRL_ISSUER_CHAIN.to_string(),
        root_ca_crl: bytes(ROOT_CA_CRL),
        pck_crl: bytes(PCK_CRL),
        tcb_info_issuer_chain: TCB_INFO_ISSUER_CHAIN.to_string(),
        tcb_info: TCB_INFO.to_string(),
        tcb_info_signature: bytes(TCB_INFO_SIGNATURE),
        qe_identity_issuer_chain: QE_IDENTITY_ISSUER_CHAIN.to_string(),
        qe_identity: QE_IDENTITY.to_string(),
        qe_identity_signature: bytes(QE_IDENTITY_SIGNATURE),
        pck_certificate_chain: None,
    }
}

fn claimed() -> Measurements {
    Measurements {
        mrtd: "91EB2B44D141D4ECE09F0C75C2C53D247A3C68EDD7FAFE8A3520C942A604A407DE03AE6DC5F87F27428B2538873118B7".to_string(),
        rtmr0: "44c0197b39157fdd7a4dcc44767f9d6b0bb3977c7a8e347b8492f827fe9d9e5c48aca29b220b80b6a540cf994b9bc9c0".to_string(),
        rtmr1: "0084452C01668329D4BC06ACDF58A7205C26743304509973949E5619BF81A6A7AEA8C323C173019B3093D54E579E9378".to_string(),
        rtmr2: "d833feef2cd945148aa38ead2c53e9b7f138190aaaebfc551dccd829fc207aa3ba80b70870d7330733642e01d48c3132".to_string(),
        rtmr3: "000000000000000000000000000000000000000000000000000000000000000000000000000000000000000000000000".to_string(),
    }
}

fn cvm(role: Role, network: Option<&str>, pem: Option<String>) -> CvmAttestation {
    CvmAttestation {
        vm_id: "vm-1".to_string(),
        name: "testnet-worker-1".to_string(),
        role,
        network: network.map(|n| n.to_string()),
        status: "running".to_string(),
        uptime: None,
        app_id: "app".to_string(),
        instance_id: None,
        compose_hash: None,
        device_id: None,
        mr_aggregated: None,
        os_image_hash: None,
        os_version: None,
        measurements: Some(claimed()),
        image_digests: Vec::new(),
        app_compose: None,
        key_provider: None,
        app_cert_pem: pem,
        event_log: Vec::new(),
        error: None,
    }
}

fn der(tag: u8, content: &[u8]) -> Vec<u8> {
    let mut out = vec![tag];
    if content.len() < 128 {
        out.push(content.len() as u8);
    } else {
        out.push(0x82);
        out.push((content.len() / 256) as u8);
        out.push((content.len() % 256) as u8);
    }
    out.extend_from_slice(content);
    out
}

/// A certificate with one extension, in PEM. Nothing here looks at its signature.
fn certificate(oid: &[u8], value: &[u8]) -> String {
    let ecdsa = der(0x30, &der(0x06, &[0x2a, 0x86, 0x48, 0xce, 0x3d, 0x04, 0x03, 0x02]));
    let name = der(0x30, &[]);
    let time = der(0x17, b"250101000000Z");
    let until = der(0x17, b"350101000000Z");
    let key_type = [
        der(0x06, &[0x2a, 0x86, 0x48, 0xce, 0x3d, 0x02, 0x01]),
        der(0x06, &[0x2a, 0x86, 0x48, 0xce, 0x3d, 0x03, 0x01, 0x07]),
    ]
    .concat();
    let mut point = vec![0u8, 4];
    point.extend_from_slice(&[7u8; 64]);
    let key = der(0x30, &[der(0x30, &key_type), der(0x03, &point)].concat());
    let extension = der(0x30, &[der(0x06, oid), der(0x04, value)].concat());
    let tbs = [
        der(0xa0, &der(0x02, &[2])),
        der(0x02, &[1]),
        ecdsa.clone(),
        name.clone(),
        der(0x30, &[time, until].concat()),
        name,
        key,
        der(0xa3, &der(0x30, &extension)),
    ]
    .concat();
    let signature = der(0x03, &[0, 1, 2, 3]);
    let cert = der(0x30, &[der(0x30, &tbs), ecdsa, signature].concat());
    let text = base64::Engine::encode(&base64::engine::general_purpose::STANDARD, &cert);
    let mut pem = "-----BEGIN CERTIFICATE-----\n".to_string();
    for line in text.as_bytes().chunks(64) {
        pem.push_str(std::str::from_utf8(line).expect("ascii"));
        pem.push('\n');
    }
    pem.push_str("-----END CERTIFICATE-----\n");
    pem
}

/// 1.3.6.1.4.1.62397.1.8
const QUOTE_OID: [u8; 10] = [0x2b, 0x06, 0x01, 0x04, 0x01, 0x83, 0xe7, 0x3d, 0x01, 0x08];

fn framed_quote() -> Vec<u8> {
    let mut value = vec![9u8, 8, 7, 6];
    value.extend_from_slice(&bytes(QUOTE));
    value
}

fn step_to_collateral(cvm: &CvmAttestation) -> (CvmVerdict, Vec<u8>) {
    match begin_verification(cvm, 77) {
        VerifyStep::FetchCollateral { verdict, quote } => (verdict, quote),
        other => panic!("unexpected step {other:?}"),
    }
}

fn answer(code: u16, status: &str, body: &str) -> RpcReply {
    RpcReply::Answered {
        code,
        status: status.to_string(),
        body: Ok(body.as_bytes().to_vec()),
    }
}

#[test]
fn quote_is_taken_from_the_leaf_certificate() {
    let pem = certificate(&QUOTE_OID, &framed_quote());
    assert_eq!(extract_quote_from_app_cert(&pem).expect("quote"), bytes(QUOTE));
    // Only the first certificate of a chain counts.
    let other = certificate(&[0x55, 0x1d, 0x13], &framed_quote());
    let chain = format!("{pem}{other}");
    assert_eq!(extract_quote_from_app_cert(&chain).expect("quote"), bytes(QUOTE));
    let swapped = format!("{other}{pem}");
    assert_eq!(
        extract_quote_from_app_cert(&swapped).expect_err("no extension").text(),
        "quote extension 1.3.6.1.4.1.62397.1.8 not found in leaf cert"
    );
}

#[test]
fn quote_errors_say_what_is_wrong() {
    assert!(extract_quote_from_app_cert("not a pem")
        .expect_err("pem")
        .text()
        .starts_with("PEM parse: "));
    let no_cert = "-----BEGIN CERTIFICATE-----\nAAAA\n-----END CERTIFICATE-----\n";
    let e = extract_quote_from_app_cert(no_cert).expect_err("der");
    assert!(matches!(e, QuoteError::Certificate(_)));
    assert!(e.text().starts_with("parse leaf X.509 certificate: "));
    assert_eq!(
        extract_quote_from_blob(&[1, 2, 3]).expect_err("short").text(),
        "TDX quote magic not found in cert extension"
    );
    assert_eq!(
        extract_quote_from_blob(&[0; 2000]).expect_err("zeros").text(),
        "TDX quote magic not found in cert extension"
    );
    let mut short = vec![1u8, 1, 4, 0, 2, 0];
    short.extend_from_slice(&[5; 995]);
    assert_eq!(
        extract_quote_from_blob(&short).expect_err("too short").text(),
        "extracted quote too short (999 bytes); extraction likely failed"
    );
    short.push(5);
    assert_eq!(extract_quote_from_blob(&short).expect("long enough"), short[2..].to_vec());
    assert_eq!(
        extract_quote_from_extensions(&Vec::new()).expect_err("none").text(),
        "quote extension 1.3.6.1.4.1.62397.1.8 not found in leaf cert"
    );
}

#[test]
fn first_quote_extension_and_first_header_count() {
    let quote = |fill: u8| {
        let mut q = vec![4u8, 0, 2, 0];
        q.extend_from_slice(&vec![fill; 1200]);
        q
    };
    let ext = |oid: &str, value: Vec<u8>| Extension { oid: oid.to_string(), value };
    let list = vec![
        ext("2.5.29.19", quote(1)),
        ext("1.3.6.1.4.1.62397.1.8", quote(2)),
        ext("1.3.6.1.4.1.62397.1.8", quote(3)),
    ];
    assert_eq!(extract_quote_from_extensions(&list).expect("quote"), quote(2));
    // A second header inside the quote belongs to it, whatever the framing before the first.
    let mut twice = vec![4u8, 0, 2];
    twice.extend_from_slice(&quote(6));
    twice.extend_from_slice(&quote(7));
    assert_eq!(extract_quote_from_blob(&twice).expect("quote"), twice[3..].to_vec());
}

#[test]
fn genuine_quote_is_verified_and_approved() {
    let cvm = cvm(
        Role::Worker,
        Some("testnet"),
        Some(certificate(&QUOTE_OID, &framed_quote())),
    );
    let (verdict, quote) = step_to_collateral(&cvm);
    assert_eq!(quote, bytes(QUOTE));
    assert!(!verdict.sig_valid);
    let step = collateral_arrived(
        &cvm,
        verdict,
        &quote,
        CollateralReply::Fetched(collateral()),
        NOW,
    );
    let (verdict, query) = match step {
        VerifyStep::AskChain { verdict, query } => (verdict, query),
        other => panic!("unexpected step {other:?}"),
    };
    assert_eq!(query.url, "https://rpc.testnet.fastnear.com");
    assert!(query.body.contains("\"account_id\":\"worker.outlayer.testnet\""));
    let v = chain_replied(
        verdict,
        answer(200, "200 OK", "{\"result\":{\"result\":[116,114,117,101]}}"),
    );
    assert_eq!(v.vm_id, "vm-1");
    assert_eq!(v.verified_at, 77);
    assert!(v.sig_valid);
    assert_eq!(v.tcb_status.as_deref(), Some("UpToDate"));
    assert!(v.advisory_ids.is_empty());
    assert_eq!(v.fmspc.as_deref(), Some("B0C06F000000"));
    assert_eq!(v.quote_measurements_match, Some(true));
    assert_eq!(v.on_chain_approved, Some(true));
    assert_eq!(v.on_chain_contract.as_deref(), Some("worker.outlayer.testnet"));
    assert_eq!(v.error, None);
    let d = v.decoded.expect("decoded");
    assert_eq!(d.mrtd, "91eb2b44d141d4ece09f0c75c2c53d247a3c68edd7fafe8a3520c942a604a407de03ae6dc5f87f27428b2538873118b7");
    assert_eq!(d.rtmr0, "44c0197b39157fdd7a4dcc44767f9d6b0bb3977c7a8e347b8492f827fe9d9e5c48aca29b220b80b6a540cf994b9bc9c0");
    assert_eq!(d.rtmr3, "000000000000000000000000000000000000000000000000000000000000000000000000000000000000000000000000");
    assert_eq!(d.mr_seam, "5b38e33a6487958b72c3c12a938eaa5e3fd4510c51aeeab58c7d5ecee41d7c436489d6c8e4f92f160b7cad34207b00c1");
    assert_eq!(d.tee_tcb_svn, "06010300000000000000000000000000");
    assert_eq!(d.td_attributes, "0000001000000000");
    assert_eq!(d.xfam, "e702060000000000");
    assert_eq!(d.report_data, "9a9d48e7f6799642d3d1b34e1e5e1742d4bb02dd6ddd551862c1211d35c304f9eca3efdbb481601c163cf52493d6e44aed55d51ec39b7e518fadb92c2b523f20");
    assert_eq!(d.fmspc.as_deref(), Some("B0C06F000000"));
    assert_eq!(d.quote_hex, QUOTE);
}

#[test]
fn fmspc_of_what_is_no_quote_is_unknown() {
    assert_eq!(extract_fmspc(&bytes(QUOTE)).as_deref(), Some("B0C06F000000"));
    assert_eq!(extract_fmspc(&[4, 0, 2, 0]), None);
}

#[test]
fn tampered_quote_is_refused() {
    let cvm = cvm(Role::Worker, Some("testnet"), None);
    let mut quote = bytes(QUOTE);
    quote[200] ^= 1;
    let step = collateral_arrived(
        &cvm,
        CvmVerdict::new("vm-1".to_string(), 5),
        &quote,
        CollateralReply::Fetched(collateral()),
        NOW,
    );
    let v = match step {
        VerifyStep::Done(v) => v,
        other => panic!("unexpected step {other:?}"),
    };
    assert!(!v.sig_valid);
    assert!(v.error.expect("error").starts_with("quote verification failed: "));
    assert!(v.decoded.is_none() && v.on_chain_contract.is_none());
    assert_eq!(v.tcb_status, None);
}

#[test]
fn expired_collateral_is_refused() {
    let cvm = cvm(Role::Worker, Some("testnet"), None);
    let step = collateral_arrived(
        &cvm,
        CvmVerdict::new("vm-1".to_string(), 5),
        &bytes(QUOTE),
        CollateralReply::Fetched(collateral()),
        NOW + 10 * 365 * 86_400,
    );
    match step {
        VerifyStep::Done(v) => {
            assert!(!v.sig_valid);
            assert!(v.error.expect("error").starts_with("quote verification failed: "));
        }
        other => panic!("unexpected step {other:?}"),
    }
}

#[test]
fn measurements_that_differ_do_not_match() {
    let mut cvm = cvm(Role::Kms, None, None);
    cvm.measurements = Some(Measurements { rtmr2: "00".repeat(48), ..claimed() });
    let step = collateral_arrived(
        &cvm,
        CvmVerdict::new("vm-1".to_string(), 5),
        &bytes(QUOTE),
        CollateralReply::Fetched(collateral()),
        NOW,
    );
    match step {
        VerifyStep::Done(v) => {
            assert!(v.sig_valid);
            assert_eq!(v.quote_measurements_match, Some(false));
            // No contract for this role.
            assert_eq!(v.on_chain_contract, None);
            assert_eq!(v.error, None);
        }
        other => panic!("unexpected step {other:?}"),
    }
}

#[test]
fn steps_say_why_they_fail() {
    let no_pem = cvm(Role::Worker, Some("testnet"), None);
    match begin_verification(&no_pem, 9) {
        VerifyStep::Done(v) => assert_eq!(
            v.error.as_deref(),
            Some("no app_cert_pem in report (guest-agent unreachable?)")
        ),
        other => panic!("unexpected step {other:?}"),
    }
    let bad = cvm(
        Role::Worker,
        Some("testnet"),
        Some(certificate(&[0x55, 0x1d, 0x13], &[1])),
    );
    match begin_verification(&bad, 9) {
        VerifyStep::Done(v) => assert_eq!(
            v.error.as_deref(),
            Some(
                "quote extraction failed: quote extension 1.3.6.1.4.1.62397.1.8 not found in leaf cert"
            )
        ),
        other => panic!("unexpected step {other:?}"),
    }
    let fresh = || CvmVerdict::new("vm-1".to_string(), 5);
    let replies = [
        (
            CollateralReply::ClientFailed("no TLS".to_string()),
            "Intel PCS client build failed: no TLS",
        ),
        (
            CollateralReply::FetchFailed("timeout".to_string()),
            "Intel PCS collateral fetch failed: timeout",
        ),
    ];
    for (reply, text) in replies {
        match collateral_arrived(&no_pem, fresh(), &vec![1], reply, 1) {
            VerifyStep::Done(v) => {
                assert!(!v.sig_valid);
                assert_eq!(v.error.as_deref(), Some(text));
            }
            other => panic!("unexpected step {other:?}"),
        }
    }
    match quote_verified(&no_pem, fresh(), &vec![1], Err("TCB is revoked".to_string()), None) {
        VerifyStep::Done(v) => assert_eq!(
            v.error.as_deref(),
            Some("quote verification failed: TCB is revoked")
        ),
        other => panic!("unexpected step {other:?}"),
    }
    let v = chain_replied(fresh(), answer(502, "502 Bad Gateway", ""));
    assert_eq!(v.on_chain_approved, None);
    assert_eq!(v.error.as_deref(), Some("on-chain check failed: RPC HTTP 502 Bad Gateway"));
}
