use mapirs::structs::swap_filename;

#[test]
fn swap_filename_works() {
    let fpath1 = "/home/u/text.txt".to_owned();
    let fpath2 = "/".to_owned();
    let fpath3 = "/home/no/".to_owned();
    let fname1 = Some("image.jpg".to_owned());
    let fname2 = None;
    let fname3 = Some("hello/image.jpg".to_owned());
    // normal operation
    let res1 = swap_filename(&fpath1, &fname1);
    assert_eq!(res1.unwrap(), "/home/u/image.jpg");
    // if there's no file name, we don't return anything
    let res2 = swap_filename(&fpath1, &fname2);
    assert!(res2.is_none());
    // root dir doesn't have a parent
    let res3 = swap_filename(&fpath2, &fname1);
    assert!(res3.is_none());
    // if file path is a dir, we still want to do our thing.
    let res4 = swap_filename(&fpath3, &fname1);
    assert_eq!(res4.unwrap(), "/home/image.jpg");
    // get only the last component (file name) of the second arg
    let res5 = swap_filename(&fpath1, &fname3);
    assert_eq!(res5.unwrap(), "/home/u/image.jpg");
}

#[test]
fn swap_filename_keeps_equal_names() {
    let res = swap_filename(
        &"/home/u/text.txt".to_owned(),
        &Some("text.txt".to_owned()),
    );
    assert!(res.is_none());
}
